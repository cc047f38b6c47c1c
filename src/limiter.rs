//! The pacing state: the nominal interval between ticks and the clock reading
//! at which the last tick ended.
//!
//! Clock readings are spans measured from a fixed origin on a monotonic clock.
//! The caller reads the clock, sleeps and reports lateness; this module decides
//! what each tick does.

use std::cmp::Ordering;
use vstd::prelude::*;
use crate::span::{order_of, Span};

verus! {

/// What a tick does at a given moment.
#[derive(Clone, Copy, Debug)]
pub enum Step {
    /// The tick is on time: block for this long, then end the tick.
    Sleep(Span),
    /// The tick is overdue by this much: do not block; report it and end the tick.
    Late(Span),
}

/// Paces ticks at a fixed interval.
///
/// Two limiters compare by their interval alone, whatever their last tick.
pub struct Limiter {
    wait_time: Span,
    last_sleep: Span,
}

impl Limiter {
    /// The nominal interval between ticks, in nanoseconds.
    pub closed spec fn interval(self) -> nat {
        self.wait_time@
    }

    /// The clock reading at which the last tick ended, in nanoseconds.
    pub closed spec fn last(self) -> nat {
        self.last_sleep@
    }

    /// A limiter is well formed when its interval is positive.
    pub open spec fn wf(self) -> bool {
        self.interval() > 0
    }

    /// Time since the last tick at clock reading `now`; a reading before the
    /// last tick counts as no time at all.
    pub open spec fn elapsed_at(self, now: nat) -> nat {
        if self.last() <= now {
            (now - self.last()) as nat
        } else {
            0
        }
    }

    /// Time until the next tick is due at `now`, or `None` once it is overdue.
    pub open spec fn time_left_at(self, now: nat) -> Option<nat> {
        if self.elapsed_at(now) < self.interval() {
            Some((self.interval() - self.elapsed_at(now)) as nat)
        } else {
            None
        }
    }

    /// By how much a tick at `now` is overdue, or `None` while it is on time.
    pub open spec fn lateness_at(self, now: nat) -> Option<nat> {
        if self.elapsed_at(now) >= self.interval() {
            Some((self.elapsed_at(now) - self.interval()) as nat)
        } else {
            None
        }
    }

    /// A limiter with interval `wait_time` whose last tick is the clock reading `now`.
    pub fn new(wait_time: Span, now: Span) -> (r: Limiter)
        requires
            wait_time@ > 0,
        ensures
            r.wf(),
            r.interval() == wait_time@,
            r.last() == now@,
    {
        Limiter { wait_time, last_sleep: now }
    }

    /// The nominal interval between ticks.
    pub fn wait_time(&self) -> (r: Span)
        ensures
            r@ == self.interval(),
    {
        self.wait_time
    }

    /// Time since the last tick at clock reading `now`.
    pub fn elapsed(&self, now: Span) -> (r: Span)
        ensures
            r@ == self.elapsed_at(now@),
    {
        now.saturating_sub(&self.last_sleep)
    }

    /// Ends a tick, or restarts the timer, at clock reading `now`: the next tick
    /// is measured from `now`. The interval is kept.
    pub fn reset(&mut self, now: Span)
        ensures
            final(self).interval() == old(self).interval(),
            final(self).last() == now@,
    {
        self.last_sleep = now;
    }

    /// Time until the next tick is due at clock reading `now`, or `None` if it is overdue.
    pub fn time_left(&self, now: Span) -> (r: Option<Span>)
        ensures
            r matches Some(d) ==> self.time_left_at(now@) == Some(d@),
            r is None <==> self.time_left_at(now@) is None,
    {
        let e = self.elapsed(now);
        if e < self.wait_time {
            self.wait_time.checked_sub(&e)
        } else {
            None
        }
    }

    /// What a tick started at clock reading `now` does: sleep for the time left
    /// while it is on time, else report how late it is. Either way the tick ends
    /// with `reset` at the clock reading when it is done, so that lateness is
    /// never carried over to later ticks.
    pub fn plan(&self, now: Span) -> (r: Step)
        ensures
            r matches Step::Sleep(d) ==> self.time_left_at(now@) == Some(d@),
            r matches Step::Late(d) ==> self.lateness_at(now@) == Some(d@),
            r is Sleep <==> self.time_left_at(now@) is Some,
    {
        let e = self.elapsed(now);
        if e < self.wait_time {
            Step::Sleep(self.wait_time.saturating_sub(&e))
        } else {
            Step::Late(e.saturating_sub(&self.wait_time))
        }
    }
}

impl PartialEq for Limiter {
    fn eq(&self, other: &Limiter) -> (r: bool)
        ensures
            r == (self.interval() == other.interval()),
    {
        self.wait_time == other.wait_time
    }
}

impl vstd::std_specs::cmp::PartialEqSpecImpl for Limiter {
    open spec fn obeys_eq_spec() -> bool {
        true
    }

    open spec fn eq_spec(&self, other: &Limiter) -> bool {
        self.interval() == other.interval()
    }
}

impl PartialOrd for Limiter {
    fn partial_cmp(&self, other: &Limiter) -> (r: Option<Ordering>)
        ensures
            r == Some(order_of(self.interval(), other.interval())),
    {
        self.wait_time.partial_cmp(&other.wait_time)
    }
}

impl vstd::std_specs::cmp::PartialOrdSpecImpl for Limiter {
    open spec fn obeys_partial_cmp_spec() -> bool {
        true
    }

    open spec fn partial_cmp_spec(&self, other: &Limiter) -> Option<Ordering> {
        Some(order_of(self.interval(), other.interval()))
    }
}

} // verus!
