//! Connection establishment with bounded retry: the bookkeeping that
//! decides whether another dial attempt is allowed, and the outcome of
//! running that policy against a sequence of dial results.

use vstd::prelude::*;

verus! {

/// The fixed pause between two dial attempts, in seconds: long enough for
/// a freshly spawned worker to open its listening socket.
pub const RETRY_INTERVAL_SECS: u64 = 5;

/// Bookkeeping for one backend's connection attempts: how many of the
/// allowed attempts have been used. The dialing itself happens outside;
/// this records and bounds it.
pub struct ConnectRetry {
    pub max_attempts: u8,
    pub used: u8,
}

impl ConnectRetry {
    pub open spec fn wf(&self) -> bool {
        self.used <= self.max_attempts
    }

    pub fn new(max_attempts: u8) -> (r: ConnectRetry)
        ensures
            r.max_attempts == max_attempts,
            r.used == 0,
            r.wf(),
    {
        ConnectRetry { max_attempts, used: 0 }
    }

    /// Whether the budget allows one more dial attempt.
    pub fn should_attempt(&self) -> (r: bool)
        ensures
            r == (self.used < self.max_attempts),
    {
        self.used < self.max_attempts
    }

    /// Counts one dial attempt against the budget.
    pub fn record_attempt(&mut self)
        requires
            old(self).used < old(self).max_attempts,
        ensures
            final(self).used == old(self).used + 1,
            final(self).max_attempts == old(self).max_attempts,
            final(self).wf(),
    {
        self.used = self.used + 1;
    }
}

/// Whether any of the first `k` dial outcomes is a success.
pub open spec fn succeeds_within(outcomes: Seq<bool>, k: int) -> bool {
    exists|i: int| 0 <= i < k && i < outcomes.len() && outcomes[i]
}

/// What one run of the retry policy produced: whether a dial succeeded, and
/// how many attempts were made.
pub struct RetryRun {
    pub connected: bool,
    pub attempts: u8,
}

/// How a finished run relates to the dial outcomes it saw: dialing stops at
/// the first success, and a run that never connects has used every allowed
/// attempt, never fewer.
pub open spec fn retry_run_matches(r: RetryRun, outcomes: Seq<bool>, max_attempts: int) -> bool {
    &&& r.connected == succeeds_within(outcomes, max_attempts)
    &&& r.connected ==> 1 <= r.attempts <= max_attempts && outcomes[r.attempts - 1] && (forall|
        i: int,
    |
        0 <= i < r.attempts - 1 ==> !outcomes[i])
    &&& !r.connected ==> r.attempts == max_attempts
}

/// Runs the retry policy against one dial outcome per allowed attempt:
/// `outcomes[i]` is whether the `i`-th dial would reach a listening
/// backend.
pub fn retry_outcome(outcomes: &Vec<bool>, max_attempts: u8) -> (r: RetryRun)
    requires
        outcomes@.len() >= max_attempts as int,
    ensures
        retry_run_matches(r, outcomes@, max_attempts as int),
{
    let mut state = ConnectRetry::new(max_attempts);
    while state.used < state.max_attempts
        invariant
            state.wf(),
            state.max_attempts == max_attempts,
            outcomes@.len() >= max_attempts as int,
            forall|i: int| 0 <= i < state.used ==> !outcomes@[i],
        decreases max_attempts - state.used,
    {
        let idx = state.used as usize;
        let reached = outcomes[idx];
        state.record_attempt();
        if reached {
            return RetryRun { connected: true, attempts: state.used };
        }
    }
    RetryRun { connected: false, attempts: state.used }
}

/// Law: with at least three attempts allowed, a listener that answers only
/// from the third dial on is connected on the third attempt exactly, never
/// a later one.
pub proof fn lemma_third_attempt_connects(r: RetryRun, outcomes: Seq<bool>, max_attempts: int)
    requires
        retry_run_matches(r, outcomes, max_attempts),
        max_attempts >= 3,
        outcomes.len() >= max_attempts,
        !outcomes[0],
        !outcomes[1],
        outcomes[2],
    ensures
        r.connected,
        r.attempts == 3,
{
    assert(succeeds_within(outcomes, max_attempts));
    if r.attempts < 3 {
        assert(outcomes[r.attempts - 1]);
    }
    if r.attempts > 3 {
        assert(!outcomes[2]);
    }
}

/// Law: against a listener that never becomes available, the run fails and
/// uses exactly the allowed number of attempts.
pub proof fn lemma_never_available_exhausts(r: RetryRun, outcomes: Seq<bool>, max_attempts: int)
    requires
        retry_run_matches(r, outcomes, max_attempts),
        forall|i: int| 0 <= i < outcomes.len() ==> !outcomes[i],
    ensures
        !r.connected,
        r.attempts == max_attempts,
{
}

} // verus!
