use loadgen::metrics::{CounterEvent, MetricsCounters};

#[test]
fn new_counters_are_zero() {
    let c = MetricsCounters::new();
    assert_eq!((c.ok_count, c.retry_count, c.err_count), (0, 0, 0));
}

#[test]
fn increments_touch_only_their_counter() {
    let mut c = MetricsCounters::new();
    c.increment_ok();
    c.increment_retry();
    c.increment_retry();
    c.increment_err();
    c.increment_err();
    c.increment_err();
    assert_eq!((c.ok_count, c.retry_count, c.err_count), (1, 2, 3));
}

#[test]
fn workers_times_increments_are_all_counted() {
    // Three workers each recording four successes: any serialization of
    // their increments leaves exactly twelve in the success counter.
    let mut c = MetricsCounters::new();
    for _worker in 0..3 {
        for _call in 0..4 {
            c.increment_ok();
        }
    }
    let (ok, retry, err) = c.swap_and_reset();
    assert_eq!((ok, retry, err), (12, 0, 0));
}

#[test]
fn swap_and_reset_returns_totals_and_zeroes() {
    let mut c = MetricsCounters::new();
    c.increment_ok();
    c.increment_ok();
    c.increment_retry();
    let first = c.swap_and_reset();
    assert_eq!(first, (2, 1, 0));
    // Idempotent-safe: a second call with no intervening increments
    // reads all zeroes.
    let second = c.swap_and_reset();
    assert_eq!(second, (0, 0, 0));
}

#[test]
fn increment_wraps_at_the_word_boundary() {
    let mut c = MetricsCounters {
        ok_count: u64::MAX,
        retry_count: 5,
        err_count: 0,
    };
    c.increment_ok();
    assert_eq!(c.ok_count, 0);
    assert_eq!(c.retry_count, 5);
}

#[test]
fn record_dispatches_on_the_event() {
    let mut c = MetricsCounters::new();
    c.record(CounterEvent::Success);
    c.record(CounterEvent::Retried);
    c.record(CounterEvent::Exhausted);
    c.record(CounterEvent::Retried);
    assert_eq!((c.ok_count, c.retry_count, c.err_count), (1, 2, 1));
}
