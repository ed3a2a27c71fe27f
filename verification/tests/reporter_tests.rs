use loadgen::metrics::MetricsCounters;
use loadgen::reporter::{
    average_ok_per_sec, make_report, render_report_line, render_server_report_line, MetricsReport,
};

#[test]
fn thousand_successes_over_one_second_average_to_thousand() {
    let mut counters = MetricsCounters::new();
    for _ in 0..1000 {
        counters.increment_ok();
    }
    let report = make_report(&mut counters, 1000);
    assert_eq!(report.avg_ok_per_sec, 1000);
    assert_eq!(report.total_failed, 0);
    assert_eq!(report.total_retry, 0);
    assert_eq!((counters.ok_count, counters.retry_count, counters.err_count), (0, 0, 0));
}

#[test]
fn average_rounds_down() {
    assert_eq!(average_ok_per_sec(5, 2000), 2);
    assert_eq!(average_ok_per_sec(1, 3000), 0);
    assert_eq!(average_ok_per_sec(3, 1500), 2);
}

#[test]
fn average_saturates_at_the_type_bound() {
    assert_eq!(average_ok_per_sec(u64::MAX, 1), u32::MAX);
}

#[test]
fn report_reads_the_window_totals() {
    let mut counters = MetricsCounters::new();
    counters.increment_ok();
    counters.increment_ok();
    counters.increment_retry();
    counters.increment_err();
    let report = make_report(&mut counters, 500);
    // Two successes in half a second: four per second.
    assert_eq!(report.avg_ok_per_sec, 4);
    assert_eq!(report.total_failed, 1);
    assert_eq!(report.total_retry, 1);
}

#[test]
fn report_lines_render_exactly() {
    let report = MetricsReport {
        avg_ok_per_sec: 1000,
        total_failed: 2,
        total_retry: 5,
    };
    assert_eq!(
        render_report_line(&report),
        "Avg Success Req/S. 1000. Total Failed: 2, Total Retry: 5"
    );
    assert_eq!(render_server_report_line(42), "Avg Req/S. Success: 42. ");
}
