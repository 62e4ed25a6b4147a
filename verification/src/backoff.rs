//! Reconnect back-off: the delay between two connection attempts.
//!
//! The delay starts at one second, doubles on every failure up to a cap of
//! thirty seconds, and returns to one second on a successful subscribe.

use vstd::prelude::*;

verus! {

/// Delay before the first retry, and after any success, in seconds.
pub const INITIAL_DELAY_SECS: u64 = 1;

/// Largest delay between two attempts, in seconds.
pub const MAX_DELAY_SECS: u64 = 30;

/// The delay that follows `delay` after one more failure.
pub open spec fn next_delay(delay: int) -> int {
    if delay * 2 < MAX_DELAY_SECS {
        delay * 2
    } else {
        MAX_DELAY_SECS as int
    }
}

/// The delay in force after `failures` consecutive failures that follow a
/// success: 1, 2, 4, 8, 16, 30, 30, ...
pub open spec fn delay_after_failures(failures: nat) -> int
    decreases failures,
{
    if failures == 0 {
        INITIAL_DELAY_SECS as int
    } else {
        next_delay(delay_after_failures((failures - 1) as nat))
    }
}

/// The back-off state of one transport loop.
#[derive(Clone, Copy, Debug, PartialEq, Eq, Structural)]
pub struct Backoff {
    delay: u64,
}

impl Backoff {
    /// The delay is always between one second and the cap.
    #[verifier::type_invariant]
    pub closed spec fn in_range(self) -> bool {
        INITIAL_DELAY_SECS <= self.delay <= MAX_DELAY_SECS
    }

    /// The current delay in seconds.
    pub closed spec fn secs(self) -> int {
        self.delay as int
    }

    /// A fresh state: the first retry waits one second.
    pub fn new() -> (b: Backoff)
        ensures
            b.secs() == INITIAL_DELAY_SECS,
    {
        Backoff { delay: INITIAL_DELAY_SECS }
    }

    /// The delay to wait before the next attempt, in seconds.
    pub fn delay_secs(&self) -> (d: u64)
        ensures
            d == self.secs(),
            INITIAL_DELAY_SECS <= d <= MAX_DELAY_SECS,
    {
        proof {
            use_type_invariant(self);
        }
        self.delay
    }

    /// Records a failed attempt. Returns the delay to wait now, which is the
    /// delay that was in force; the state moves on to the doubled delay.
    pub fn on_failure(&mut self) -> (wait: u64)
        ensures
            wait == old(self).secs(),
            final(self).secs() == next_delay(old(self).secs()),
    {
        proof {
            use_type_invariant(&*self);
        }
        let wait: u64 = self.delay;
        let doubled: u64 = wait * 2;
        if doubled < MAX_DELAY_SECS {
            self.delay = doubled;
        } else {
            self.delay = MAX_DELAY_SECS;
        }
        wait
    }

    /// Records a successful subscribe: the next delay is one second again.
    pub fn on_success(&mut self)
        ensures
            final(self).secs() == INITIAL_DELAY_SECS,
    {
        self.delay = INITIAL_DELAY_SECS;
    }
}

/// The state that `failures` consecutive failures leave behind, starting
/// from any state that a success has just reset.
pub open spec fn after_failures(start: Backoff, failures: nat) -> int
    decreases failures,
{
    if failures == 0 {
        start.secs()
    } else {
        next_delay(after_failures(start, (failures - 1) as nat))
    }
}

/// Every delay lies between one second and the cap.
pub proof fn lemma_delay_in_range(failures: nat)
    ensures
        INITIAL_DELAY_SECS <= delay_after_failures(failures) <= MAX_DELAY_SECS,
    decreases failures,
{
    if failures > 0 {
        lemma_delay_in_range((failures - 1) as nat);
    }
}

/// Consecutive failures wait 1, 2, 4, 8, 16 seconds and then thirty seconds
/// for every failure after the fifth.
pub proof fn lemma_backoff_sequence(failures: nat)
    ensures
        failures == 0 ==> delay_after_failures(failures) == 1,
        failures == 1 ==> delay_after_failures(failures) == 2,
        failures == 2 ==> delay_after_failures(failures) == 4,
        failures == 3 ==> delay_after_failures(failures) == 8,
        failures == 4 ==> delay_after_failures(failures) == 16,
        failures >= 5 ==> delay_after_failures(failures) == 30,
    decreases failures,
{
    reveal_with_fuel(delay_after_failures, 6);
    if failures > 5 {
        lemma_backoff_sequence((failures - 1) as nat);
    }
}

/// The delays never shrink while failures continue.
pub proof fn lemma_backoff_monotonic(failures: nat)
    ensures
        delay_after_failures(failures) <= delay_after_failures(failures + 1),
{
    lemma_delay_in_range(failures);
    lemma_backoff_sequence(failures);
    lemma_backoff_sequence(failures + 1);
}

/// A success followed by `failures` failures leaves the same delay whatever
/// happened before the success.
pub proof fn lemma_success_resets(reset: Backoff, failures: nat)
    requires
        reset.secs() == INITIAL_DELAY_SECS,
    ensures
        after_failures(reset, failures) == delay_after_failures(failures),
    decreases failures,
{
    if failures > 0 {
        lemma_success_resets(reset, (failures - 1) as nat);
    }
}

} // verus!
