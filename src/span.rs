//! A length of time held as whole seconds and the nanoseconds below one second.

use std::cmp::Ordering;
use vstd::prelude::*;

verus! {

/// Nanoseconds in one second.
pub const NANOS_PER_SEC: u32 = 1_000_000_000;

/// A non-negative length of time, exact to the nanosecond: `secs` whole seconds
/// and `nanos` nanoseconds, with `nanos` always below one second.
#[derive(Clone, Copy, Debug, Eq)]
pub struct Span {
    secs: u64,
    nanos: u32,
}

impl View for Span {
    type V = nat;

    /// The length in nanoseconds.
    closed spec fn view(&self) -> nat {
        self.secs as nat * NANOS_PER_SEC as nat + self.nanos as nat
    }
}

impl Span {
    #[verifier::type_invariant]
    spec fn well_formed(self) -> bool {
        self.nanos < NANOS_PER_SEC
    }

    /// The span of `secs` seconds and `nanos` nanoseconds; nanoseconds of one
    /// second or more carry into the seconds.
    pub fn new(secs: u64, nanos: u32) -> (r: Span)
        requires
            secs as int + nanos as int / NANOS_PER_SEC as int <= u64::MAX,
        ensures
            r@ == secs as nat * NANOS_PER_SEC as nat + nanos as nat,
    {
        let carry: u32 = nanos / NANOS_PER_SEC;
        let rest: u32 = nanos % NANOS_PER_SEC;
        assert(nanos == carry * NANOS_PER_SEC + rest);
        Span { secs: secs + carry as u64, nanos: rest }
    }

    /// The span of length zero.
    pub fn zero() -> (r: Span)
        ensures
            r@ == 0,
    {
        Span { secs: 0, nanos: 0 }
    }

    /// The whole seconds in this span.
    pub fn as_secs(&self) -> (r: u64)
        ensures
            r == self@ / NANOS_PER_SEC as nat,
    {
        proof { use_type_invariant(self); }
        self.secs
    }

    /// The nanoseconds left over after the whole seconds.
    pub fn subsec_nanos(&self) -> (r: u32)
        ensures
            r == self@ % NANOS_PER_SEC as nat,
            r < NANOS_PER_SEC,
    {
        proof { use_type_invariant(self); }
        self.nanos
    }

    /// `self - rhs`, or `None` where `rhs` is the longer span.
    pub fn checked_sub(&self, rhs: &Span) -> (r: Option<Span>)
        ensures
            rhs@ <= self@ ==> r == Some(r->Some_0) && r->Some_0@ == self@ - rhs@,
            rhs@ > self@ ==> r is None,
    {
        proof {
            use_type_invariant(self);
            use_type_invariant(rhs);
        }
        if self.secs > rhs.secs || (self.secs == rhs.secs && self.nanos >= rhs.nanos) {
            if self.nanos >= rhs.nanos {
                Some(Span { secs: self.secs - rhs.secs, nanos: self.nanos - rhs.nanos })
            } else {
                Some(Span { secs: self.secs - rhs.secs - 1, nanos: self.nanos + (NANOS_PER_SEC - rhs.nanos) })
            }
        } else {
            None
        }
    }

    /// `self - rhs`, or zero where `rhs` is the longer span.
    pub fn saturating_sub(&self, rhs: &Span) -> (r: Span)
        ensures
            r@ == if rhs@ <= self@ { self@ - rhs@ } else { 0 },
    {
        match self.checked_sub(rhs) {
            Some(d) => d,
            None => Span::zero(),
        }
    }
}

impl PartialEq for Span {
    fn eq(&self, other: &Span) -> (r: bool)
        ensures
            r == (self@ == other@),
    {
        proof {
            use_type_invariant(self);
            use_type_invariant(other);
        }
        self.secs == other.secs && self.nanos == other.nanos
    }
}

impl vstd::std_specs::cmp::PartialEqSpecImpl for Span {
    open spec fn obeys_eq_spec() -> bool {
        true
    }

    open spec fn eq_spec(&self, other: &Span) -> bool {
        self@ == other@
    }
}

/// The order of two lengths in nanoseconds.
pub open spec fn order_of(a: nat, b: nat) -> Ordering {
    if a < b {
        Ordering::Less
    } else if a == b {
        Ordering::Equal
    } else {
        Ordering::Greater
    }
}

impl PartialOrd for Span {
    fn partial_cmp(&self, other: &Span) -> (r: Option<Ordering>)
        ensures
            r == Some(order_of(self@, other@)),
    {
        proof {
            use_type_invariant(self);
            use_type_invariant(other);
        }
        if self.secs < other.secs || (self.secs == other.secs && self.nanos < other.nanos) {
            Some(Ordering::Less)
        } else if self.secs == other.secs && self.nanos == other.nanos {
            Some(Ordering::Equal)
        } else {
            Some(Ordering::Greater)
        }
    }
}

impl vstd::std_specs::cmp::PartialOrdSpecImpl for Span {
    open spec fn obeys_partial_cmp_spec() -> bool {
        true
    }

    open spec fn partial_cmp_spec(&self, other: &Span) -> Option<Ordering> {
        Some(order_of(self@, other@))
    }
}

} // verus!
