//! Rate-limited retries with exponential backoff, as a state machine: the
//! caller performs each attempt and each wait, and asks the state what to do
//! next.

use vstd::prelude::*;
use vstd::arithmetic::power2::{lemma_pow2_unfold, pow2};

verus! {

/// The policy of retried calls. Durations are in whole seconds.
#[derive(Clone, Copy, Debug, PartialEq, Eq, Structural)]
pub struct RetryConfig {
    /// Retries allowed after the first attempt.
    pub max_retries: u32,
    /// Wait before the first retry; each later retry waits twice the one before.
    pub initial_backoff: u64,
    /// Wait before the first attempt, always taken.
    pub rate_limit_delay: u64,
}

/// Progress of one retried call: failures so far and the wait before the next
/// retry.
#[derive(Clone, Copy, Debug, PartialEq, Eq, Structural)]
pub struct RetryState {
    pub config: RetryConfig,
    pub failures: u32,
    pub backoff: u64,
}

/// Twice `b`, held at `u64::MAX`.
pub open spec fn doubled(b: u64) -> u64 {
    if 2 * b > u64::MAX { u64::MAX } else { (2 * b) as u64 }
}

/// The state of a call before its first attempt.
pub open spec fn start_spec(config: RetryConfig) -> RetryState {
    RetryState { config, failures: 0, backoff: config.initial_backoff }
}

/// What a failed attempt leads to: while retries remain, the wait before the
/// next attempt (the current backoff, which then doubles); else `None`, and
/// the call fails.
pub open spec fn failure_step(s: RetryState) -> (RetryState, Option<u64>) {
    if s.failures < s.config.max_retries {
        (RetryState { config: s.config, failures: (s.failures + 1) as u32, backoff: doubled(s.backoff) }, Some(s.backoff))
    } else {
        (s, None)
    }
}

impl RetryState {
    /// The state of a call before its first attempt.
    pub fn start(config: RetryConfig) -> (r: RetryState)
        ensures
            r == start_spec(config),
    {
        RetryState { config, failures: 0, backoff: config.initial_backoff }
    }

    /// The wait before the first attempt: the rate-limit delay.
    pub fn first_wait(&self) -> (r: u64)
        ensures
            r == self.config.rate_limit_delay,
    {
        self.config.rate_limit_delay
    }

    /// Records a failed attempt. Returns the wait before the next attempt, or
    /// `None` where no retry remains and the call fails with this failure.
    pub fn on_failure(&mut self) -> (r: Option<u64>)
        ensures
            (*final(self), r) == failure_step(*old(self)),
    {
        if self.failures < self.config.max_retries {
            let wait = self.backoff;
            self.failures = self.failures + 1;
            self.backoff = if self.backoff > u64::MAX / 2 { u64::MAX } else { self.backoff * 2 };
            Some(wait)
        } else {
            None
        }
    }
}

/// The state after `k` consecutive failures.
pub open spec fn state_after(config: RetryConfig, k: nat) -> RetryState
    decreases k,
{
    if k == 0 {
        start_spec(config)
    } else {
        failure_step(state_after(config, (k - 1) as nat)).0
    }
}

/// The waits taken over `k` consecutive failures: the rate-limit delay before
/// the first attempt, then the wait that each failure leads to.
pub open spec fn waits_observed(config: RetryConfig, k: nat) -> Seq<u64>
    decreases k,
{
    if k == 0 {
        seq![config.rate_limit_delay]
    } else {
        let w = failure_step(state_after(config, (k - 1) as nat)).1;
        waits_observed(config, (k - 1) as nat).push(w->0)
    }
}

/// `initial_backoff * 2^j`, held at `u64::MAX`.
pub open spec fn backoff_wait(config: RetryConfig, j: nat) -> u64 {
    let w = config.initial_backoff * pow2(j);
    if w > u64::MAX { u64::MAX } else { w as u64 }
}

proof fn lemma_state_after(config: RetryConfig, k: nat)
    requires
        k <= config.max_retries,
    ensures
        state_after(config, k).config == config,
        state_after(config, k).failures == k,
        state_after(config, k).backoff == backoff_wait(config, k),
    decreases k,
{
    if k == 0 {
        vstd::arithmetic::power::lemma_pow0(2);
        assert(pow2(0) == 1);
        assert(config.initial_backoff * pow2(0) == config.initial_backoff);
    } else {
        let j = (k - 1) as nat;
        lemma_state_after(config, j);
        lemma_pow2_unfold(k);
        let b = config.initial_backoff as int;
        let x = b * pow2(j);
        assert(b * pow2(k) == 2 * x) by (nonlinear_arith)
            requires
                pow2(k) == 2 * pow2(j),
                x == b * pow2(j),
        ;
        assert(x >= 0) by (nonlinear_arith)
            requires
                b >= 0,
                x == b * pow2(j),
        ;
        let prev = state_after(config, j);
        assert(state_after(config, k) == failure_step(prev).0);
        if x > u64::MAX {
            assert(prev.backoff == u64::MAX);
            assert(doubled(prev.backoff) == u64::MAX);
        } else {
            assert(prev.backoff == x);
        }
    }
}

/// Over consecutive failures the waits are the rate-limit delay, then
/// `b, 2b, 4b, ...` for an initial backoff `b` (held at `u64::MAX`); each of
/// the first `max_retries` failures is retried, and the call fails at the
/// failure of attempt `max_retries + 1`, not before.
pub proof fn retry_waits_double(config: RetryConfig, k: nat)
    requires
        k <= config.max_retries,
    ensures
        waits_observed(config, k) == seq![config.rate_limit_delay]
            + Seq::new(k, |j: int| backoff_wait(config, j as nat)),
        forall|j: nat| j < config.max_retries ==> #[trigger] failure_step(state_after(config, j)).1
            == Some(backoff_wait(config, j)),
        failure_step(state_after(config, config.max_retries as nat)).1 is None,
        forall|j: nat| config.initial_backoff * pow2(j) <= u64::MAX
            ==> #[trigger] backoff_wait(config, j) == config.initial_backoff * pow2(j),
    decreases k,
{
    assert forall|j: nat| j < config.max_retries implies #[trigger] failure_step(state_after(config, j)).1
        == Some(backoff_wait(config, j)) by {
        lemma_state_after(config, j);
    }
    lemma_state_after(config, config.max_retries as nat);
    if k > 0 {
        let j = (k - 1) as nat;
        retry_waits_double(config, j);
        lemma_state_after(config, j);
        assert(waits_observed(config, k) =~= seq![config.rate_limit_delay]
            + Seq::new(k, |j: int| backoff_wait(config, j as nat)));
    } else {
        assert(waits_observed(config, k) =~= seq![config.rate_limit_delay]
            + Seq::new(k, |j: int| backoff_wait(config, j as nat)));
    }
}

} // verus!
