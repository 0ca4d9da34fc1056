//! When to refresh all accounts.
use vstd::prelude::*;

use std::time::Instant;

verus! {

/// A moment on the machine's clock, of `std::time`.
#[verifier::external_type_specification]
#[verifier::external_body]
pub struct ExInstant(std::time::Instant);

/// `std::time::Instant::now`. Which moment it returns depends on when it is called, so
/// nothing is claimed of it.
pub assume_specification[ std::time::Instant::now ]() -> (now: std::time::Instant)
;

/// Calls `std::time::Instant::elapsed`, and gives the duration in nanoseconds. The time that
/// has passed depends on when it is called, so nothing is claimed of it.
#[verifier::external_body]
fn nanos_since(since: &Instant) -> (nanos: u128) {
    since.elapsed().as_nanos()
}

/// Refreshes all accounts from time to time.
pub struct BatchRefreshScheduler {
    /// How many nanoseconds pass between two refreshes.
    pub interval_nanos: u128,
    pub last_run: Option<Instant>,
}

/// Whether looking at the clock can find that it is `at` now.
pub closed spec fn can_be_now(at: Instant) -> bool {
    call_ensures(Instant::now, (), at)
}

/// Whether looking at the clock can find that `nanos` nanoseconds have passed since `since`.
pub closed spec fn can_have_passed(since: Instant, nanos: u128) -> bool {
    call_ensures(nanos_since, (&since,), nanos)
}

/// How many nanoseconds a second has.
pub const NANOS_PER_SEC: u128 = 1000000000;

/// Whether a refresh is due when `passed` nanoseconds have passed since the last one, if
/// there was one.
pub fn refresh_due(passed: Option<u128>, interval_nanos: u128) -> (due: bool)
    ensures
        due == match passed {
            None => true,
            Some(nanos) => nanos >= interval_nanos,
        },
{
    match passed {
        None => true,
        Some(nanos) => nanos >= interval_nanos,
    }
}

impl BatchRefreshScheduler {
    /// A scheduler that has not run yet.
    pub fn new(interval_nanos: u128) -> (scheduler: Self)
        ensures
            scheduler.interval_nanos == interval_nanos,
            scheduler.last_run is None,
    {
        BatchRefreshScheduler { interval_nanos, last_run: None }
    }

    /// Whether looking at the clock can find that a refresh is due, or that it is not, as
    /// `due` says. The first one always is; after that it is where the time that has passed
    /// since the last one is at least the interval.
    pub open spec fn can_find(self, due: bool) -> bool {
        match self.last_run {
            None => due,
            Some(last_run) => exists|nanos: u128| #[trigger]
                can_have_passed(last_run, nanos) && due == (nanos >= self.interval_nanos),
        }
    }

    /// Whether this is the scheduler `before` with a refresh noted as started now.
    pub open spec fn marked_from(self, before: BatchRefreshScheduler) -> bool {
        &&& self.interval_nanos == before.interval_nanos
        &&& self.last_run matches Some(at) && can_be_now(at)
    }

    /// Whether a refresh is due. The first one always is; after that it depends on the
    /// time that has passed. An interval of no length has always passed.
    pub fn should_trigger(&self) -> (due: bool)
        ensures
            self.can_find(due),
            self.last_run is None || self.interval_nanos == 0 ==> due,
    {
        match &self.last_run {
            None => refresh_due(None, self.interval_nanos),
            Some(last_run) => {
                let nanos: u128 = nanos_since(last_run);
                assert(can_have_passed(*last_run, nanos));
                refresh_due(Some(nanos), self.interval_nanos)
            },
        }
    }

    /// Notes that a refresh has been started now.
    pub fn mark_triggered(&mut self)
        ensures
            final(self).marked_from(*old(self)),
    {
        let now: Instant = Instant::now();
        assert(can_be_now(now));
        self.last_run = Some(now);
    }
}

} // verus!
