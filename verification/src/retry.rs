//! Exponential-backoff retry policy for remote transcription backends.
//!
//! The delay for attempt `n` is `min(base_delay * 2^n, max_delay)`; when the
//! failure indicates rate limiting the capped delay is further multiplied by
//! `rate_limit_multiplier` (the cap is applied before the multiplier).
//! Retryable failures are HTTP 408, 429, 500, 502, 503, 504 and
//! transport-level timeout/connect/request-build errors; any other status
//! fails immediately.  The retry loop itself is a state machine driven by
//! [`RetryState::on_outcome`], so callers can suspend during waits without
//! blocking other work.

use vstd::prelude::*;
use vstd::arithmetic::power2::{pow2, lemma_pow2_unfold};
use vstd::math::min;

verus! {

/// Whether an HTTP status code is worth retrying.
pub open spec fn spec_is_retryable_status(status: u16) -> bool {
    status == 408 || status == 429 || status == 500 || status == 502 || status == 503
        || status == 504
}

/// Retryable statuses: request timeout, rate limiting, and server-side errors.
pub fn is_retryable_status(status: u16) -> (r: bool)
    ensures
        r == spec_is_retryable_status(status),
{
    matches!(status, 408 | 429 | 500 | 502 | 503 | 504)
}

/// Whether an HTTP status code indicates rate limiting.
pub open spec fn spec_is_rate_limited(status: u16) -> bool {
    status == 429
}

/// Rate limiting is signalled by status 429 alone.
pub fn is_rate_limited(status: u16) -> (r: bool)
    ensures
        r == spec_is_rate_limited(status),
{
    status == 429
}

/// Parameters of the backoff policy.
#[derive(Debug, Clone, Copy, PartialEq, Eq, Structural)]
pub struct RetryConfig {
    /// Maximum number of retry attempts after the first try.
    pub max_retries: u32,
    /// Base delay in milliseconds; doubles with each attempt.
    pub base_delay_ms: u64,
    /// Cap on the computed delay, in milliseconds.
    pub max_delay_ms: u64,
    /// Factor applied after the cap when the failure is rate limiting.
    pub rate_limit_multiplier: u64,
}

impl RetryConfig {
    /// A usable configuration: positive base below the cap, and a multiplier
    /// that cannot overflow the final multiplication.
    pub open spec fn wf(self) -> bool {
        &&& 0 < self.base_delay_ms
        &&& self.base_delay_ms <= self.max_delay_ms
        &&& 1 <= self.rate_limit_multiplier
        &&& self.max_delay_ms * self.rate_limit_multiplier <= u64::MAX
    }

    /// The capped exponential delay, before any rate-limit multiplier.
    pub open spec fn spec_base_delay(self, attempt: nat) -> int {
        min(self.base_delay_ms * pow2(attempt), self.max_delay_ms as int)
    }

    /// The delay for a given attempt: cap first, multiplier after.
    pub open spec fn spec_delay(self, attempt: nat, rate_limited: bool) -> int {
        if rate_limited {
            self.spec_base_delay(attempt) * self.rate_limit_multiplier
        } else {
            self.spec_base_delay(attempt)
        }
    }

    /// Compute the delay in milliseconds for the given attempt number.
    pub fn delay_for_attempt(&self, attempt: u32, is_rate_limited: bool) -> (d: u64)
        requires
            self.wf(),
        ensures
            d == self.spec_delay(attempt as nat, is_rate_limited),
    {
        let mut d: u64 = if self.base_delay_ms > self.max_delay_ms {
            self.max_delay_ms
        } else {
            self.base_delay_ms
        };
        assert(pow2(0) == 1) by {
            vstd::arithmetic::power2::lemma2_to64();
        };
        let mut i: u32 = 0;
        while i < attempt
            invariant
                i <= attempt,
                self.wf(),
                d == self.spec_base_delay(i as nat),
            decreases attempt - i,
        {
            proof {
                lemma_pow2_unfold((i + 1) as nat);
                assert(self.max_delay_ms == 2 * (self.max_delay_ms / 2) + self.max_delay_ms % 2);
            }
            if d > self.max_delay_ms / 2 {
                proof {
                    assert(self.base_delay_ms * pow2((i + 1) as nat) == 2 * (self.base_delay_ms
                        * pow2(i as nat))) by (nonlinear_arith)
                        requires
                            pow2((i + 1) as nat) == 2 * pow2(i as nat),
                    ;
                }
                d = self.max_delay_ms;
            } else {
                proof {
                    assert(self.base_delay_ms * pow2((i + 1) as nat) == 2 * (self.base_delay_ms
                        * pow2(i as nat))) by (nonlinear_arith)
                        requires
                            pow2((i + 1) as nat) == 2 * pow2(i as nat),
                    ;
                }
                d = d * 2;
            }
            i = i + 1;
        }
        if is_rate_limited {
            proof {
                assert(d * self.rate_limit_multiplier <= self.max_delay_ms
                    * self.rate_limit_multiplier) by (nonlinear_arith)
                    requires
                        d <= self.max_delay_ms,
                        0 <= self.rate_limit_multiplier,
                ;
            }
            d * self.rate_limit_multiplier
        } else {
            d
        }
    }
}

impl Default for RetryConfig {
    /// The policy used by the remote backends: up to 3 retries, 1 s base,
    /// 16 s cap, rate-limited delays doubled.
    fn default() -> (c: Self)
        ensures
            c == (RetryConfig {
                max_retries: 3,
                base_delay_ms: 1000,
                max_delay_ms: 16000,
                rate_limit_multiplier: 2,
            }),
            c.wf(),
    {
        RetryConfig { max_retries: 3, base_delay_ms: 1000, max_delay_ms: 16000, rate_limit_multiplier: 2 }
    }
}

/// How one transcription attempt ended, as observed by the caller.
#[derive(Debug, Clone, Copy, PartialEq, Eq, Structural)]
pub enum AttemptOutcome {
    /// The request resolved with a success status.
    Success,
    /// The server answered with a non-success HTTP status.
    Http { status: u16 },
    /// The transport failed before a status was received; the caller reports
    /// whether the failure class (timeout, connect, request build) is
    /// retryable.
    Transport { retryable: bool },
}

/// Whether an outcome may be retried at all.
pub open spec fn spec_outcome_retryable(o: AttemptOutcome) -> bool {
    match o {
        AttemptOutcome::Success => false,
        AttemptOutcome::Http { status } => spec_is_retryable_status(status),
        AttemptOutcome::Transport { retryable } => retryable,
    }
}

/// Whether an outcome indicates rate limiting.
pub open spec fn spec_outcome_rate_limited(o: AttemptOutcome) -> bool {
    match o {
        AttemptOutcome::Success => false,
        AttemptOutcome::Http { status } => spec_is_rate_limited(status),
        AttemptOutcome::Transport { .. } => false,
    }
}

/// What the retry engine tells the caller to do next.
#[derive(Debug, Clone, Copy, PartialEq, Eq, Structural)]
pub enum RetryDecision {
    /// The attempt succeeded; stop.
    Succeeded,
    /// Sleep for the given delay, then try again.  This is the only
    /// suspension point of the loop.
    Waiting { delay_ms: u64 },
    /// The failure is not retryable, or the budget is exhausted; surface the
    /// last error.
    Failed,
}

/// The retry loop of one request, as an explicit state machine: the caller
/// performs an attempt, reports its [`AttemptOutcome`], and obeys the
/// returned [`RetryDecision`].
#[derive(Debug, Clone, Copy, PartialEq, Eq, Structural)]
pub struct RetryState {
    /// The policy parameters, fixed for the life of the request.
    pub config: RetryConfig,
    /// How many retries have been decided so far.
    pub attempt: u32,
}

impl RetryState {
    /// The attempt count never exceeds the configured maximum.
    pub open spec fn wf(self) -> bool {
        &&& self.config.wf()
        &&& self.attempt <= self.config.max_retries
    }

    /// Start the loop for one request.
    pub fn new(config: RetryConfig) -> (s: Self)
        requires
            config.wf(),
        ensures
            s == (RetryState { config, attempt: 0 }),
            s.wf(),
    {
        RetryState { config, attempt: 0 }
    }

    /// Decide what follows one attempt: success stops; a retryable failure
    /// within budget schedules a wait of exactly
    /// `spec_delay(attempt, rate_limited)` and consumes one retry; anything
    /// else fails the request.
    pub fn on_outcome(&mut self, outcome: AttemptOutcome) -> (d: RetryDecision)
        requires
            old(self).wf(),
        ensures
            final(self).wf(),
            final(self).config == old(self).config,
            outcome is Success ==> d == RetryDecision::Succeeded && final(self).attempt == old(
                self,
            ).attempt,
            !(outcome is Success) && spec_outcome_retryable(outcome) && old(self).attempt < old(
                self,
            ).config.max_retries ==> d == (RetryDecision::Waiting {
                delay_ms: old(self).config.spec_delay(
                    old(self).attempt as nat,
                    spec_outcome_rate_limited(outcome),
                ) as u64,
            }) && final(self).attempt == old(self).attempt + 1,
            !(outcome is Success) && !(spec_outcome_retryable(outcome) && old(self).attempt < old(
                self,
            ).config.max_retries) ==> d == RetryDecision::Failed && final(self).attempt
                == old(self).attempt,
    {
        match outcome {
            AttemptOutcome::Success => RetryDecision::Succeeded,
            AttemptOutcome::Http { status } => {
                if is_retryable_status(status) && self.attempt < self.config.max_retries {
                    let delay = self.config.delay_for_attempt(
                        self.attempt,
                        is_rate_limited(status),
                    );
                    self.attempt = self.attempt + 1;
                    RetryDecision::Waiting { delay_ms: delay }
                } else {
                    RetryDecision::Failed
                }
            },
            AttemptOutcome::Transport { retryable } => {
                if retryable && self.attempt < self.config.max_retries {
                    let delay = self.config.delay_for_attempt(self.attempt, false);
                    self.attempt = self.attempt + 1;
                    RetryDecision::Waiting { delay_ms: delay }
                } else {
                    RetryDecision::Failed
                }
            },
        }
    }
}

} // verus!
