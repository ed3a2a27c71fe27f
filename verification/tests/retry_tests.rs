use loadgen::backoff::BackoffConfig;
use loadgen::metrics::MetricsCounters;
use loadgen::retry::{RetryDecision, RetryEngine, TransientError};
use loadgen::worker::run_recorded_call;

fn failure(text: &str) -> Result<u32, TransientError> {
    Err(TransientError {
        message: text.to_string(),
    })
}

#[test]
fn always_succeeding_call_returns_ok_on_first_attempt() {
    // The client always succeeds: one attempt, no retries, the success
    // counter steps by one.
    let config = BackoffConfig::default();
    let mut attempts = vec![Ok(41u32)];
    let times = vec![0];
    let draws = vec![1000];
    let mut counters = MetricsCounters::new();
    let r = run_recorded_call(config, 0, &mut attempts, &times, &draws, &mut counters);
    assert_eq!(r.unwrap(), 41);
    assert_eq!(counters.ok_count, 1);
    assert_eq!(counters.retry_count, 0);
    assert_eq!(counters.err_count, 0);
}

#[test]
fn always_failing_call_exhausts_with_one_error() {
    // A 500 ms budget with a 200 ms initial interval: the first two
    // failures are retried, the third lands past the budget. The error
    // counter steps by one for the whole call, not once per attempt.
    let config = BackoffConfig {
        initial_interval_ms: 200,
        max_interval_ms: 1500,
        multiplier: 2,
        randomization_permille: 500,
        max_elapsed_ms: 500,
    };
    let mut attempts = vec![failure("boom 1"), failure("boom 2"), failure("boom 3")];
    let times = vec![0, 200, 600];
    let draws = vec![1000, 1000, 1000];
    let mut counters = MetricsCounters::new();
    let r = run_recorded_call(config, 0, &mut attempts, &times, &draws, &mut counters);
    let e = r.unwrap_err();
    // The exhaustion error carries the last underlying failure.
    assert_eq!(e.last_error.message, "boom 3");
    assert_eq!(counters.err_count, 1);
    assert_eq!(counters.ok_count, 0);
    assert_eq!(counters.retry_count, 2);
}

#[test]
fn two_failures_then_success_retries_exactly_twice() {
    // The retry hook — the retry counter — fires exactly twice, and the
    // call still ends in success.
    let config = BackoffConfig::default();
    let mut attempts = vec![failure("first"), failure("second"), Ok(7u32)];
    let times = vec![0, 200, 600];
    let draws = vec![1000, 1000, 1000];
    let mut counters = MetricsCounters::new();
    let r = run_recorded_call(config, 0, &mut attempts, &times, &draws, &mut counters);
    assert_eq!(r.unwrap(), 7);
    assert_eq!(counters.ok_count, 1);
    assert_eq!(counters.retry_count, 2);
    assert_eq!(counters.err_count, 0);
}

#[test]
fn engine_gives_up_exactly_past_the_budget() {
    let config = BackoffConfig::default();
    let mut counters = MetricsCounters::new();
    let mut engine = RetryEngine::new(config, 0);
    match engine.on_failure(5000, 1000, &mut counters) {
        RetryDecision::RetryAfter(wait) => assert_eq!(wait, 200),
        RetryDecision::GiveUp => panic!("gave up within the budget"),
    }
    assert_eq!(counters.retry_count, 1);
    let mut engine_late = RetryEngine::new(config, 0);
    match engine_late.on_failure(5001, 1000, &mut counters) {
        RetryDecision::RetryAfter(_) => panic!("retried past the budget"),
        RetryDecision::GiveUp => {}
    }
    // Giving up does not count a retry.
    assert_eq!(counters.retry_count, 1);
}

#[test]
fn engine_waits_grow_between_retries() {
    let config = BackoffConfig::default();
    let mut counters = MetricsCounters::new();
    let mut engine = RetryEngine::new(config, 0);
    let mut waits = Vec::new();
    for _ in 0..4 {
        match engine.on_failure(100, 1000, &mut counters) {
            RetryDecision::RetryAfter(wait) => waits.push(wait),
            RetryDecision::GiveUp => panic!("gave up within the budget"),
        }
    }
    assert_eq!(waits, vec![200, 400, 800, 1500]);
    assert_eq!(counters.retry_count, 4);
}
