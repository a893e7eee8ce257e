//! Waiting for a deadline.

use vstd::prelude::*;

use crate::option::TimerStrategy;
use crate::time::{elapsed, max_nanos, Duration, Instant};

verus! {

/// What is left to do until a deadline.
#[derive(Debug)]
pub enum Wait {
    /// The deadline has come.
    Over,
    /// Sleep once for the given span; the deadline has come after that.
    Sleep(Duration),
    /// Spin once and look at the clock again.
    Spin,
}

/// What is left to do until `deadline` when the clock reads `now`.
pub open spec fn wait_for(strategy: TimerStrategy, deadline: nat, now: nat) -> Wait {
    if deadline <= now {
        Wait::Over
    } else {
        match strategy {
            TimerStrategy::Sleep => Wait::Sleep(Duration::of(elapsed(now, deadline))),
            TimerStrategy::BusyWait => Wait::Spin,
        }
    }
}

/// A way to wait for a deadline.
pub trait Sleep {
    /// The strategy that this way belongs to.
    spec fn strategy() -> TimerStrategy;

    /// What is left to do until `deadline` when the clock reads `now`.
    fn sleep_until(deadline: Instant, now: Instant) -> (wait: Wait)
        ensures
            wait == wait_for(Self::strategy(), deadline@, now@),
    ;
}

/// Waits by putting the thread to sleep.
pub struct StdSleep {}

impl Sleep for StdSleep {
    open spec fn strategy() -> TimerStrategy {
        TimerStrategy::Sleep
    }

    fn sleep_until(deadline: Instant, now: Instant) -> (wait: Wait) {
        let span = deadline.saturating_duration_since(now);
        if Duration::zero().is_shorter_than(&span) {
            Wait::Sleep(span)
        } else {
            Wait::Over
        }
    }
}

/// Waits by polling the clock.
pub struct BusyWait {}

impl Sleep for BusyWait {
    open spec fn strategy() -> TimerStrategy {
        TimerStrategy::BusyWait
    }

    fn sleep_until(deadline: Instant, now: Instant) -> (wait: Wait) {
        if now.is_before(deadline) {
            Wait::Spin
        } else {
            Wait::Over
        }
    }
}

impl TimerStrategy {
    /// What is left to do until `deadline` when the clock reads `now`.
    pub fn sleep_until(self, deadline: Instant, now: Instant) -> (wait: Wait)
        ensures
            wait == wait_for(self, deadline@, now@),
    {
        match self {
            TimerStrategy::Sleep => StdSleep::sleep_until(deadline, now),
            TimerStrategy::BusyWait => BusyWait::sleep_until(deadline, now),
        }
    }
}

/// Neither strategy stops waiting before the deadline: waiting is over only when the clock has
/// reached it, and a sleep that is taken in full ends at the deadline.
pub proof fn law_no_wait_ends_early(strategy: TimerStrategy, deadline: nat, now: nat)
    requires
        deadline <= max_nanos(),
    ensures
        match wait_for(strategy, deadline, now) {
            Wait::Over => deadline <= now,
            Wait::Sleep(span) => now < deadline && now + span@ == deadline,
            Wait::Spin => now < deadline,
        },
{
    broadcast use Duration::lemma_of;

}

/// From the deadline on there is nothing to wait for. Before it, the sleeping strategy sleeps what
/// is left and the busy one spins.
pub proof fn law_strategies_wait_their_own_way(deadline: nat, now: nat)
    requires
        deadline <= max_nanos(),
    ensures
        deadline <= now ==> wait_for(TimerStrategy::Sleep, deadline, now) is Over,
        deadline <= now ==> wait_for(TimerStrategy::BusyWait, deadline, now) is Over,
        now < deadline ==> (wait_for(TimerStrategy::Sleep, deadline, now) matches Wait::Sleep(span)
            && now + span@ == deadline),
        now < deadline ==> wait_for(TimerStrategy::BusyWait, deadline, now) is Spin,
        StdSleep::strategy() == TimerStrategy::Sleep,
        BusyWait::strategy() == TimerStrategy::BusyWait,
{
    broadcast use Duration::lemma_of;

}

} // verus!
