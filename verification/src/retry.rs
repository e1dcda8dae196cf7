//! The retry policy: exponential backoff with jitter and an attempt ceiling.
//!
//! The policy is pure configuration plus arithmetic. It decides, for a
//! failed attempt, whether another attempt may follow and after how long;
//! the actual waiting and re-issuing of requests happens outside the
//! library, which only ever asks the policy.

use vstd::prelude::*;

verus! {

/// Default ceiling on the number of attempts for one URL.
pub const DEFAULT_MAX_ATTEMPTS: u64 = 10;

/// Default base delay before the first retry, in milliseconds.
pub const DEFAULT_BASE_DELAY_MS: u64 = 300;

/// Configuration of the per-request retry policy.
///
/// Only transport-level failures are retryable; an HTTP error status is
/// terminal for its URL and never consumes a retry.
#[derive(Debug, Clone, Copy, PartialEq, Eq, Structural)]
pub struct FetchPolicy {
    /// Ceiling on the number of attempts, the first one included.
    pub max_attempts: u64,
    /// Delay before the first retry, in milliseconds; it doubles with each
    /// further retry, saturating at `u64::MAX`.
    pub base_delay_ms: u64,
    /// Whether randomized jitter is applied to each delay, to avoid
    /// synchronized retry storms across workers.
    pub jitter: bool,
}

/// One saturating doubling step of a delay.
pub open spec fn sat_double(d: u64) -> u64 {
    if d > u64::MAX / 2 {
        u64::MAX
    } else {
        (2 * d) as u64
    }
}

/// The backoff delay, in milliseconds and before jitter, that precedes the
/// `k + 1`-th retry: the base delay doubled `k` times, saturating at
/// `u64::MAX`.
pub open spec fn backoff_ms(base: u64, k: nat) -> u64
    decreases k,
{
    if k == 0 {
        base
    } else {
        sat_double(backoff_ms(base, (k - 1) as nat))
    }
}

/// Doubling never shrinks a delay.
proof fn lemma_sat_double_ge(d: u64)
    ensures
        sat_double(d) >= d,
{
}

/// The sequence of backoff delays is non-decreasing in the retry index:
/// before jitter is applied, a later retry never waits less than an earlier
/// one.
pub proof fn lemma_backoff_monotone(base: u64, i: nat, j: nat)
    requires
        i <= j,
    ensures
        backoff_ms(base, i) <= backoff_ms(base, j),
    decreases j - i,
{
    if i < j {
        lemma_backoff_monotone(base, i, (j - 1) as nat);
        lemma_sat_double_ge(backoff_ms(base, (j - 1) as nat));
    }
}

impl FetchPolicy {
    /// A policy is usable when it allows at least the initial attempt.
    pub open spec fn wf(self) -> bool {
        self.max_attempts >= 1
    }

    /// The policy the pipeline runs with unless configured otherwise:
    /// 10 attempts, 300 ms base delay, jitter on.
    pub fn default_policy() -> (r: FetchPolicy)
        ensures
            r.max_attempts == DEFAULT_MAX_ATTEMPTS,
            r.base_delay_ms == DEFAULT_BASE_DELAY_MS,
            r.jitter,
            r.wf(),
    {
        FetchPolicy { max_attempts: DEFAULT_MAX_ATTEMPTS, base_delay_ms: DEFAULT_BASE_DELAY_MS, jitter: true }
    }

    /// Whether a failed attempt may be followed by another one: only
    /// transport failures are retryable, and only while the attempt budget
    /// is not exhausted. `attempts_made` counts the failed attempt itself.
    pub fn may_retry(&self, transport_failure: bool, attempts_made: u64) -> (r: bool)
        ensures
            r == (transport_failure && attempts_made < self.max_attempts),
    {
        transport_failure && attempts_made < self.max_attempts
    }

    /// The delay, before jitter, that precedes retry attempt number
    /// `next_attempt` (counting attempts from zero, so the first retry is
    /// attempt 1 and waits the base delay).
    pub fn delay_before_ms(&self, next_attempt: u64) -> (r: u64)
        requires
            1 <= next_attempt,
        ensures
            r == backoff_ms(self.base_delay_ms, (next_attempt - 1) as nat),
    {
        let mut d: u64 = self.base_delay_ms;
        let mut k: u64 = 1;
        while k < next_attempt
            invariant
                1 <= k <= next_attempt,
                d == backoff_ms(self.base_delay_ms, (k - 1) as nat),
            decreases next_attempt - k,
        {
            d = if d > u64::MAX / 2 {
                u64::MAX
            } else {
                2 * d
            };
            k = k + 1;
        }
        d
    }

    /// Randomize a delay. With jitter off the delay is returned unchanged;
    /// with jitter on, `entropy` (a random word supplied by the caller)
    /// picks a point in the upper half of the interval, so the jittered
    /// delay always stays within `[delay_ms / 2, delay_ms]`.
    pub fn jittered_delay_ms(&self, delay_ms: u64, entropy: u64) -> (r: u64)
        ensures
            !self.jitter ==> r == delay_ms,
            self.jitter ==> r == delay_ms as int / 2 + entropy as int % (delay_ms as int / 2 + 1),
            delay_ms / 2 <= r <= delay_ms,
    {
        if self.jitter {
            delay_ms / 2 + entropy % (delay_ms / 2 + 1)
        } else {
            delay_ms
        }
    }
}

} // verus!
