//! Properties of pacing that hold over several ticks, proved from the
//! contracts of `Limiter`.
//!
//! Clock readings are in nanoseconds from the clock's origin. A limiter whose
//! `last()` is `t` is one on which the last tick ended, or `reset` was called,
//! at reading `t`; the clock being monotonic, later readings are not below it.

use std::cmp::Ordering;
use vstd::prelude::*;
use crate::limiter::Limiter;
use vstd::std_specs::cmp::{PartialEqSpec, PartialOrdSpec};

verus! {

/// A tick started within one interval of the end of the last tick is on time:
/// it sleeps until exactly one interval after the last tick ended, and reports
/// no lateness.
pub proof fn lemma_on_time_pacing(l: Limiter, now: nat)
    requires
        l.last() <= now < l.last() + l.interval(),
    ensures
        l.time_left_at(now) == Some((l.last() + l.interval() - now) as nat),
        l.lateness_at(now) is None,
{
}

/// A tick started one interval or more after the end of the last tick does not
/// block, and reports how far past the interval it came.
pub proof fn lemma_late_tick(l: Limiter, now: nat)
    requires
        l.last() + l.interval() <= now,
    ensures
        l.time_left_at(now) is None,
        l.lateness_at(now) == Some((now - l.last() - l.interval()) as nat),
{
}

/// Lateness is not carried over: once a late tick has ended at reading `end`,
/// the next tick waits until a full interval after `end`, however late the
/// late one was.
pub proof fn lemma_no_catch_up(late: Limiter, start: nat, ended: Limiter, end: nat, now: nat)
    requires
        late.lateness_at(start) is Some,
        ended.interval() == late.interval(),
        ended.last() == end,
        end <= now < end + late.interval(),
    ensures
        ended.time_left_at(now) == Some((end + late.interval() - now) as nat),
        ended.time_left_at(end) == Some(late.interval()),
        ended.lateness_at(now) is None,
{
}

/// Right after `reset` at reading `now`, a tick sleeps for the full interval and
/// reports no lateness, however long ago the previous tick was.
pub proof fn lemma_reset_then_tick(before: Limiter, after: Limiter, now: nat)
    requires
        before.wf(),
        after.interval() == before.interval(),
        after.last() == now,
    ensures
        after.time_left_at(now) == Some(before.interval()),
        after.lateness_at(now) is None,
{
}

/// Between two ticks the time left never grows: at a later reading it is no
/// more than at an earlier one, and it falls by exactly the time that passed
/// while both readings are past the last tick. Once absent it stays absent.
pub proof fn lemma_time_left_decreasing(l: Limiter, a: nat, b: nat)
    requires
        a <= b,
    ensures
        l.time_left_at(a) is None ==> l.time_left_at(b) is None,
        l.time_left_at(b) matches Some(tb) ==> (l.time_left_at(a) matches Some(ta) && tb <= ta),
        l.last() <= a && l.time_left_at(b) is Some ==> l.time_left_at(b)->Some_0 + (b - a)
            == l.time_left_at(a)->Some_0,
{
}

/// Limiters are equal exactly when their intervals are, and the one with the
/// longer interval is the greater, whatever their last ticks.
pub proof fn lemma_order_by_interval(a: Limiter, b: Limiter)
    ensures
        a.eq_spec(&b) <==> a.interval() == b.interval(),
        a.partial_cmp_spec(&b) == Some(Ordering::Greater) <==> a.interval() > b.interval(),
        a.partial_cmp_spec(&b) == Some(Ordering::Less) <==> a.interval() < b.interval(),
        a.partial_cmp_spec(&b) == Some(Ordering::Equal) <==> a.interval() == b.interval(),
{
}

} // verus!
