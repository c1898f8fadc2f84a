//! Bounded exponential-backoff retry.
//!
//! An operation is retried while the failure is classified retryable
//! (`NetworkError`, `RateLimited`, `ServiceUnavailable`, `InternalError`)
//! and fewer than `max_retries` retries have been spent; the delay before
//! the `n`-th retry is `min(initial_delay * multiplier^n, max_delay)`.
//! The retry engine here is a pure driver over the sequence of outcomes the
//! successive attempts produce; the surrounding runtime performs the actual
//! call and the sleep between attempts.

use vstd::prelude::*;

verus! {

use vstd::arithmetic::power::{pow, lemma_pow0, lemma_pow1, lemma_pow_adds, lemma_pow_increases,
    lemma_pow_positive};
use vstd::arithmetic::mul::lemma_mul_inequality;
use crate::error::DomainError;

/// Configuration of the backoff schedule. The multiplier is an integer
/// factor, at least two, applied to the delay after each failed attempt.
#[derive(Debug, Clone)]
pub struct RetryConfig {
    pub max_retries: u32,
    pub initial_delay_ms: u64,
    pub max_delay_ms: u64,
    pub backoff_multiplier: u64,
}

impl RetryConfig {
    /// A well-formed configuration: the backoff factor actually grows the
    /// delay.
    pub open spec fn wf(self) -> bool {
        self.backoff_multiplier >= 2
    }

    /// Replaces the retry budget.
    pub fn with_max_retries(self, max_retries: u32) -> (r: RetryConfig)
        ensures
            r == (RetryConfig { max_retries, ..self }),
    {
        RetryConfig { max_retries, ..self }
    }

    /// Replaces the initial delay.
    pub fn with_initial_delay(self, delay_ms: u64) -> (r: RetryConfig)
        ensures
            r == (RetryConfig { initial_delay_ms: delay_ms, ..self }),
    {
        RetryConfig { initial_delay_ms: delay_ms, ..self }
    }

    /// The delay before the retry after attempt `attempt`:
    /// `min(initial_delay * multiplier^attempt, max_delay)`.
    pub open spec fn spec_delay(self, attempt: nat) -> int {
        let raw = self.initial_delay_ms * pow(self.backoff_multiplier as int, attempt);
        if raw <= self.max_delay_ms {
            raw
        } else {
            self.max_delay_ms as int
        }
    }

    /// Computes the backoff delay for an attempt number.
    pub fn calculate_delay(&self, attempt: u32) -> (r: u64)
        requires
            self.wf(),
        ensures
            r == self.spec_delay(attempt as nat),
    {
        let m = self.backoff_multiplier;
        if self.initial_delay_ms == 0 {
            proof {
                lemma_pow_positive(m as int, attempt as nat);
            }
            return 0;
        }
        let mut cur: u64 = self.initial_delay_ms;
        let mut k: u32 = 0;
        proof {
            lemma_pow0(m as int);
        }
        while k < attempt
            invariant
                self.wf(),
                m == self.backoff_multiplier,
                k <= attempt,
                cur == self.initial_delay_ms * pow(m as int, k as nat),
                cur >= 1,
            decreases attempt - k,
    {
            if cur >= self.max_delay_ms {
                proof {
                    lemma_pow_increases(m as nat, k as nat, attempt as nat);
                    assert(self.initial_delay_ms * pow(m as int, attempt as nat) >= cur)
                        by (nonlinear_arith)
                        requires
                            cur == self.initial_delay_ms * pow(m as int, k as nat),
                            pow(m as int, k as nat) <= pow(m as int, attempt as nat),
                            self.initial_delay_ms >= 0,
                    ;
                }
                return self.max_delay_ms;
            }
            proof {
                lemma_pow_adds(m as int, k as nat, 1);
                lemma_pow1(m as int);
                assert(self.initial_delay_ms * pow(m as int, (k + 1) as nat) == cur * m)
                    by (nonlinear_arith)
                    requires
                        cur == self.initial_delay_ms * pow(m as int, k as nat),
                        pow(m as int, (k + 1) as nat) == pow(m as int, k as nat) * (m as int),
                ;
            }
            let next = match cur.checked_mul(m) {
                Some(x) => x,
                None => {
                    proof {
                        lemma_pow_increases(m as nat, (k + 1) as nat, attempt as nat);
                        assert(self.initial_delay_ms * pow(m as int, attempt as nat) > u64::MAX)
                            by (nonlinear_arith)
                            requires
                                self.initial_delay_ms * pow(m as int, (k + 1) as nat) == cur * m,
                                cur * m > u64::MAX,
                                pow(m as int, (k + 1) as nat) <= pow(m as int, attempt as nat),
                                self.initial_delay_ms >= 0,
                        ;
                    }
                    return self.max_delay_ms;
                },
            };
            proof {
                assert(next >= cur) by (nonlinear_arith)
                    requires
                        next == cur * m,
                        cur >= 1,
                        m >= 2,
                ;
            }
            cur = next;
            k = k + 1;
        }
        if cur >= self.max_delay_ms {
            self.max_delay_ms
        } else {
            cur
        }
    }
}

/// The default schedule: three retries, a one second initial delay doubling
/// up to thirty seconds.
pub open spec fn spec_default_config() -> RetryConfig {
    RetryConfig {
        max_retries: 3,
        initial_delay_ms: 1000,
        max_delay_ms: 30000,
        backoff_multiplier: 2,
    }
}

impl Default for RetryConfig {
    /// Three retries, a one second initial delay doubling up to thirty
    /// seconds.
    fn default() -> (r: RetryConfig)
        ensures
            r == spec_default_config(),
            r.wf(),
    {
        RetryConfig {
            max_retries: 3,
            initial_delay_ms: 1000,
            max_delay_ms: 30000,
            backoff_multiplier: 2,
        }
    }
}

/// Which domain errors are transient and eligible for retry.
pub open spec fn spec_is_retryable(e: DomainError) -> bool {
    e is NetworkError || e is RateLimited || e is ServiceUnavailable || e is InternalError
}

/// Checks whether an error should be retried: exactly `NetworkError`,
/// `RateLimited`, `ServiceUnavailable` and `InternalError` are; all other
/// variants are permanent.
pub fn is_retryable(error: &DomainError) -> (r: bool)
    ensures
        r == spec_is_retryable(*error),
{
    match error {
        DomainError::NetworkError(_) => true,
        DomainError::RateLimited(_) => true,
        DomainError::ServiceUnavailable(_) => true,
        DomainError::InternalError(_) => true,
        _ => false,
    }
}

/// The attempt at index `i` ends the run: it succeeded, failed permanently,
/// or exhausted the retry budget.
pub open spec fn terminal_at<T>(
    cfg: RetryConfig,
    outcomes: Seq<Result<T, DomainError>>,
    i: nat,
) -> bool {
    i >= cfg.max_retries || outcomes[i as int] is Ok || !spec_is_retryable(
        outcomes[i as int]->Err_0,
    )
}

/// The index of the attempt whose outcome the run returns, scanning from
/// `i`.
pub open spec fn stop_index_from<T>(
    cfg: RetryConfig,
    outcomes: Seq<Result<T, DomainError>>,
    i: nat,
) -> nat
    decreases cfg.max_retries - i,
{
    if terminal_at(cfg, outcomes, i) {
        i
    } else {
        stop_index_from(cfg, outcomes, i + 1)
    }
}

/// The index of the attempt whose outcome the run returns.
pub open spec fn stop_index<T>(cfg: RetryConfig, outcomes: Seq<Result<T, DomainError>>) -> nat {
    stop_index_from(cfg, outcomes, 0)
}

proof fn lemma_stop_index_from<T>(
    cfg: RetryConfig,
    outcomes: Seq<Result<T, DomainError>>,
    i: nat,
    t: nat,
)
    requires
        i <= t,
        terminal_at(cfg, outcomes, t),
        forall|j: nat| i <= j < t ==> !terminal_at(cfg, outcomes, j),
    ensures
        stop_index_from(cfg, outcomes, i) == t,
    decreases t - i,
{
    if i < t {
        assert(!terminal_at(cfg, outcomes, i));
        lemma_stop_index_from(cfg, outcomes, i + 1, t);
    }
}

/// The total time, in milliseconds, slept before the stop index `k`.
pub open spec fn sleep_sum(cfg: RetryConfig, k: nat) -> int
    decreases k,
{
    if k == 0 {
        0
    } else {
        sleep_sum(cfg, (k - 1) as nat) + cfg.spec_delay((k - 1) as nat)
    }
}

/// The result of driving a retried operation to completion: the outcome
/// returned to the caller, how many times the operation ran, and how long
/// the backoff slept in total (saturating at `u64::MAX`).
pub struct RetryRun<T> {
    pub result: Result<T, DomainError>,
    pub attempts: u64,
    pub total_sleep_ms: u64,
}

/// Drives a retried operation over the outcomes its successive attempts
/// produce. Attempt 0 runs immediately; a retryable failure with budget
/// left costs a backoff sleep and another attempt; the first success,
/// permanent failure, or exhaustion of the budget is returned as-is.
pub fn retry_with_config<T>(config: &RetryConfig, outcomes: Vec<Result<T, DomainError>>) -> (r:
    RetryRun<T>)
    requires
        config.wf(),
        outcomes@.len() > config.max_retries,
    ensures
        r.attempts == stop_index(*config, outcomes@) + 1,
        r.result == outcomes@[stop_index(*config, outcomes@) as int],
        sleep_sum(*config, stop_index(*config, outcomes@)) <= u64::MAX ==> r.total_sleep_ms
            == sleep_sum(*config, stop_index(*config, outcomes@)),
        sleep_sum(*config, stop_index(*config, outcomes@)) > u64::MAX ==> r.total_sleep_ms
            == u64::MAX,
{
    let ghost orig = outcomes@;
    let mut rest = outcomes;
    let mut attempt: u32 = 0;
    let mut slept: u64 = 0;
    loop
        invariant
            config.wf(),
            orig == outcomes@,
            orig.len() > config.max_retries,
            attempt <= config.max_retries,
            rest@ == orig.subrange(attempt as int, orig.len() as int),
            forall|j: nat| j < attempt ==> !terminal_at(*config, orig, j),
            sleep_sum(*config, attempt as nat) <= u64::MAX ==> slept == sleep_sum(
                *config,
                attempt as nat,
            ),
            sleep_sum(*config, attempt as nat) > u64::MAX ==> slept == u64::MAX,
        decreases config.max_retries - attempt,
    {
        let outcome = rest.remove(0);
        proof {
            assert(outcome == orig[attempt as int]);
        }
        match outcome {
            Ok(v) => {
                proof {
                    assert(terminal_at(*config, orig, attempt as nat));
                    assert(forall|j: nat| 0 <= j < attempt ==> !terminal_at(*config, orig, j));
                    lemma_stop_index_from(*config, orig, 0, attempt as nat);
                    assert(stop_index(*config, orig) == attempt as nat);
                }
                return RetryRun {
                    result: Ok(v),
                    attempts: attempt as u64 + 1,
                    total_sleep_ms: slept,
                };
            },
            Err(e) => {
                if attempt >= config.max_retries || !is_retryable(&e) {
                    proof {
                        assert(terminal_at(*config, orig, attempt as nat));
                        lemma_stop_index_from(*config, orig, 0, attempt as nat);
                        assert(stop_index(*config, orig) == attempt as nat);
                    }
                    return RetryRun {
                        result: Err(e),
                        attempts: attempt as u64 + 1,
                        total_sleep_ms: slept,
                    };
                }
                let delay = config.calculate_delay(attempt);
                slept = slept.saturating_add(delay);
                attempt = attempt + 1;
                proof {
                    assert(rest@ =~= orig.subrange(attempt as int, orig.len() as int));
                    assert(sleep_sum(*config, attempt as nat) == sleep_sum(
                        *config,
                        (attempt - 1) as nat,
                    ) + config.spec_delay((attempt - 1) as nat));
                }
            },
        }
    }
}

/// Retries with the default configuration.
pub fn retry_default<T>(outcomes: Vec<Result<T, DomainError>>) -> (r: RetryRun<T>)
    requires
        outcomes@.len() > 3,
    ensures
        r.attempts == stop_index(spec_default_config(), outcomes@) + 1,
        r.result == outcomes@[stop_index(spec_default_config(), outcomes@) as int],
{
    let config = RetryConfig::default();
    retry_with_config(&config, outcomes)
}

/// An operation that always fails with a retryable error runs exactly
/// `max_retries + 1` times and the run returns its final error.
pub proof fn lemma_retry_exhausts_budget<T>(cfg: RetryConfig, outcomes: Seq<Result<T, DomainError>>)
    requires
        outcomes.len() > cfg.max_retries,
        forall|i: int|
            0 <= i < outcomes.len() ==> (#[trigger] outcomes[i]) is Err && spec_is_retryable(
                outcomes[i]->Err_0,
            ),
    ensures
        stop_index(cfg, outcomes) == cfg.max_retries,
        outcomes[stop_index(cfg, outcomes) as int] == outcomes[cfg.max_retries as int],
{
    lemma_stop_index_from(cfg, outcomes, 0, cfg.max_retries as nat);
}

/// An operation that fails twice with a retryable error and then succeeds
/// runs exactly three times; the run returns the success, after a total
/// backoff of the first two delays.
pub proof fn lemma_retry_two_failures_then_success<T>(
    cfg: RetryConfig,
    outcomes: Seq<Result<T, DomainError>>,
)
    requires
        cfg.max_retries >= 2,
        outcomes.len() > cfg.max_retries,
        outcomes[0] is Err && spec_is_retryable(outcomes[0]->Err_0),
        outcomes[1] is Err && spec_is_retryable(outcomes[1]->Err_0),
        outcomes[2] is Ok,
    ensures
        stop_index(cfg, outcomes) == 2,
        outcomes[stop_index(cfg, outcomes) as int] == outcomes[2],
        sleep_sum(cfg, stop_index(cfg, outcomes)) == cfg.spec_delay(0) + cfg.spec_delay(1),
{
    assert forall|j: nat| 0 <= j < 2 implies !terminal_at(cfg, outcomes, j) by {
        assert(outcomes[j as int] is Err);
    }
    lemma_stop_index_from(cfg, outcomes, 0, 2);
    assert(sleep_sum(cfg, 2) == sleep_sum(cfg, 1) + cfg.spec_delay(1));
    assert(sleep_sum(cfg, 1) == sleep_sum(cfg, 0) + cfg.spec_delay(0));
}

} // verus!
