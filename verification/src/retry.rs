//! The retry engine: it drives one logical call through the backoff
//! policy. Every failure is treated as retryable; the call ends when an
//! attempt succeeds or when the elapsed budget runs out, and only then.
//!
//! The attempt itself — the remote call — and the waiting between
//! attempts happen outside the library. The engine is therefore split in
//! two layers, both verified: `RetryEngine::on_failure` is the decision
//! an outer loop consults after each failed attempt, and
//! `execute_recorded` is the whole call driven over attempt outcomes and
//! completion times handed in as values, so that everything the engine
//! does between two suspensions is pinned down for every possible
//! sequence of outcomes.

use crate::backoff::{grown_interval, interval_after, jittered_wait, BackoffConfig, BackoffPolicy};
use crate::metrics::{bumped, MetricsCounters};
use vstd::pervasive::unreached;
use vstd::prelude::*;

verus! {

/// A failure of one attempt, always treated as retryable.
#[derive(Debug)]
pub struct TransientError {
    pub message: String,
}

/// The terminal error of one logical call: the elapsed budget ran out.
/// Carries the last underlying failure.
#[derive(Debug)]
pub struct ExhaustionError {
    pub last_error: TransientError,
}

/// What the engine decides after one failed attempt.
#[derive(Debug)]
pub enum RetryDecision {
    /// Try again after waiting this many milliseconds.
    RetryAfter(u64),
    /// The elapsed budget is exhausted: stop retrying.
    GiveUp,
}

/// The engine driving one logical call: a backoff sequence reset at the
/// start of the call.
pub struct RetryEngine {
    pub backoff: BackoffPolicy,
}

impl RetryEngine {
    /// The invariant between calls: the backoff state is within bounds.
    pub open spec fn wf(self) -> bool {
        self.backoff.wf()
    }

    /// An engine for one fresh logical call, its budget measured from
    /// `now_ms`.
    pub fn new(config: BackoffConfig, now_ms: u64) -> (r: RetryEngine)
        requires
            config.wf(),
        ensures
            r.wf(),
            r.backoff.config == config,
            r.backoff.current_interval_ms == config.initial_interval_ms,
            r.backoff.start_time_ms == now_ms,
    {
        RetryEngine { backoff: BackoffPolicy::new(config, now_ms) }
    }

    /// The decision after one failed attempt at `now_ms`: give up exactly
    /// when the elapsed budget is exceeded; otherwise hand out the next
    /// jittered wait, grow the interval, and count one retry — the
    /// retry-notification side effect.
    pub fn on_failure(&mut self, now_ms: u64, unit_draw: u64, counters: &mut MetricsCounters) -> (d:
        RetryDecision)
        requires
            old(self).wf(),
            now_ms >= old(self).backoff.start_time_ms,
            unit_draw <= 2000,
        ensures
            final(self).wf(),
            final(self).backoff.config == old(self).backoff.config,
            final(self).backoff.start_time_ms == old(self).backoff.start_time_ms,
            final(counters).ok_count == old(counters).ok_count,
            final(counters).err_count == old(counters).err_count,
            (d is GiveUp) <==> now_ms - old(self).backoff.start_time_ms > old(
                self,
            ).backoff.config.max_elapsed_ms,
            d is GiveUp ==> *final(self) == *old(self) && *final(counters) == *old(counters),
            d matches RetryDecision::RetryAfter(wait) ==> {
                &&& wait == jittered_wait(
                    old(self).backoff.current_interval_ms,
                    old(self).backoff.config,
                    unit_draw,
                )
                &&& final(self).backoff.current_interval_ms == grown_interval(
                    old(self).backoff.current_interval_ms,
                    old(self).backoff.config,
                )
                &&& final(counters).retry_count == bumped(old(counters).retry_count)
            },
    {
        match self.backoff.next_interval(now_ms, unit_draw) {
            Some(wait) => {
                counters.increment_retry();
                RetryDecision::RetryAfter(wait)
            },
            None => RetryDecision::GiveUp,
        }
    }
}

/// How one logical call ends, given its attempt outcomes and their
/// completion times: success at an attempt index, exhaustion at a failed
/// attempt's index, or undecided where the recorded outcomes end before
/// either.
pub enum CallVerdict {
    SucceededAt(int),
    ExhaustedAt(int),
    Undecided,
}

/// The verdict of the call from attempt `i` on: the first success, unless
/// a failure first lands beyond the elapsed budget.
pub open spec fn verdict_from<T>(
    config: BackoffConfig,
    start_ms: u64,
    attempts: Seq<Result<T, TransientError>>,
    times_ms: Seq<u64>,
    i: nat,
) -> CallVerdict
    recommends
        attempts.len() == times_ms.len(),
    decreases attempts.len() - i,
{
    if i >= attempts.len() {
        CallVerdict::Undecided
    } else if attempts[i as int] is Ok {
        CallVerdict::SucceededAt(i as int)
    } else if times_ms[i as int] - start_ms > config.max_elapsed_ms {
        CallVerdict::ExhaustedAt(i as int)
    } else {
        verdict_from(config, start_ms, attempts, times_ms, i + 1)
    }
}

/// The verdict of the whole call.
pub open spec fn call_verdict<T>(
    config: BackoffConfig,
    start_ms: u64,
    attempts: Seq<Result<T, TransientError>>,
    times_ms: Seq<u64>,
) -> CallVerdict {
    verdict_from(config, start_ms, attempts, times_ms, 0)
}

/// One logical call, driven over recorded attempt outcomes: attempt `i`
/// completes at `times_ms[i]` with `attempts[i]`, and `draws[i]` is the
/// jitter draw consulted after a failure. The call returns the first
/// successful attempt's value, or the exhaustion error carrying the last
/// underlying failure, exactly as the verdict says; each retry that was
/// scheduled on the way — one per failed attempt before the deciding one
/// — is counted. The waits the policy hands out are where the outer loop
/// suspends; here the passing of time is already in `times_ms`.
pub fn execute_recorded<T>(
    config: BackoffConfig,
    start_ms: u64,
    attempts: &mut Vec<Result<T, TransientError>>,
    times_ms: &Vec<u64>,
    draws: &Vec<u64>,
    counters: &mut MetricsCounters,
) -> (r: Result<T, ExhaustionError>)
    requires
        config.wf(),
        times_ms@.len() == old(attempts)@.len(),
        draws@.len() == old(attempts)@.len(),
        forall|j: int| 0 <= j < times_ms@.len() ==> start_ms <= #[trigger] times_ms@[j],
        forall|j: int| 0 <= j < draws@.len() ==> #[trigger] draws@[j] <= 2000,
        !(call_verdict(config, start_ms, old(attempts)@, times_ms@) is Undecided),
        old(counters).retry_count + old(attempts)@.len() <= u64::MAX,
    ensures
        final(counters).ok_count == old(counters).ok_count,
        final(counters).err_count == old(counters).err_count,
        match call_verdict(config, start_ms, old(attempts)@, times_ms@) {
            CallVerdict::SucceededAt(i) => {
                &&& r is Ok
                &&& r->Ok_0 == old(attempts)@[i]->Ok_0
                &&& final(counters).retry_count == old(counters).retry_count + i
            },
            CallVerdict::ExhaustedAt(i) => {
                &&& r is Err
                &&& r->Err_0.last_error == old(attempts)@[i]->Err_0
                &&& final(counters).retry_count == old(counters).retry_count + i
            },
            CallVerdict::Undecided => false,
        },
{
    let n = attempts.len();
    let mut backoff = BackoffPolicy::new(config, start_ms);
    let mut i: usize = 0;
    while i < n
        invariant
            i <= n,
            n == old(attempts)@.len(),
            attempts@ == old(attempts)@,
            times_ms@.len() == n,
            draws@.len() == n,
            config.wf(),
            forall|j: int| 0 <= j < times_ms@.len() ==> start_ms <= #[trigger] times_ms@[j],
            forall|j: int| 0 <= j < draws@.len() ==> #[trigger] draws@[j] <= 2000,
            backoff.wf(),
            backoff.config == config,
            backoff.start_time_ms == start_ms,
            backoff.current_interval_ms == interval_after(config, i as nat),
            verdict_from(config, start_ms, old(attempts)@, times_ms@, i as nat) == call_verdict(
                config,
                start_ms,
                old(attempts)@,
                times_ms@,
            ),
            !(call_verdict(config, start_ms, old(attempts)@, times_ms@) is Undecided),
            counters.ok_count == old(counters).ok_count,
            counters.err_count == old(counters).err_count,
            counters.retry_count == old(counters).retry_count + i,
            old(counters).retry_count + n <= u64::MAX,
        decreases n - i,
    {
        if attempts[i].is_ok() {
            proof {
                assert(verdict_from(config, start_ms, old(attempts)@, times_ms@, i as nat)
                    == CallVerdict::SucceededAt(i as int));
            }
            match attempts.remove(i) {
                Result::Ok(value) => {
                    return Result::Ok(value);
                },
                Result::Err(_) => {
                    return unreached();
                },
            }
        }
        let now_ms = times_ms[i];
        let draw = draws[i];
        match backoff.next_interval(now_ms, draw) {
            Option::None => {
                proof {
                    assert(verdict_from(config, start_ms, old(attempts)@, times_ms@, i as nat)
                        == CallVerdict::ExhaustedAt(i as int));
                }
                match attempts.remove(i) {
                    Result::Err(last_error) => {
                        return Result::Err(ExhaustionError { last_error });
                    },
                    Result::Ok(_) => {
                        return unreached();
                    },
                }
            },
            Option::Some(_wait) => {
                counters.increment_retry();
                i = i + 1;
            },
        }
    }
    proof {
        assert(verdict_from(config, start_ms, old(attempts)@, times_ms@, i as nat) is Undecided);
    }
    unreached()
}

} // verus!
