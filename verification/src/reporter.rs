//! The reporter's computation: read and reset the counters, turn the
//! window's success count into an average rate, and render the report
//! lines. The periodic tick, the clock and the printing stay outside the
//! library; they hand in the elapsed window in milliseconds.

use crate::metrics::MetricsCounters;
use crate::naming::decimal_digits;
use crate::naming::u64_to_decimal;
use vstd::prelude::*;
use vstd::string::StringExecFns;

verus! {

/// The average per-second rate over a window: a thousand times the count,
/// divided by the window length in milliseconds, rounded down.
pub open spec fn average_per_sec(count: u64, elapsed_ms: u64) -> int
    recommends
        elapsed_ms > 0,
{
    (count * 1000) as int / elapsed_ms as int
}

/// The average success rate over a window, saturating at `u32::MAX`
/// where the exact average does not fit.
pub fn average_ok_per_sec(ok_count: u64, elapsed_ms: u64) -> (r: u32)
    requires
        elapsed_ms > 0,
    ensures
        average_per_sec(ok_count, elapsed_ms) <= u32::MAX ==> r == average_per_sec(
            ok_count,
            elapsed_ms,
        ),
        average_per_sec(ok_count, elapsed_ms) > u32::MAX ==> r == u32::MAX,
{
    let wide: u128 = (ok_count as u128) * 1000 / (elapsed_ms as u128);
    if wide > (u32::MAX as u128) {
        u32::MAX
    } else {
        wide as u32
    }
}

/// One report: the window's average success rate and its failure and
/// retry totals.
#[derive(Clone, Copy, PartialEq, Eq, Structural, Debug)]
pub struct MetricsReport {
    pub avg_ok_per_sec: u32,
    pub total_failed: u64,
    pub total_retry: u64,
}

/// One reporter tick over the shared counters: read and reset them, and
/// report the window's average success rate (saturating at `u32::MAX`)
/// with the failure and retry totals of the same window.
pub fn make_report(counters: &mut MetricsCounters, elapsed_ms: u64) -> (r: MetricsReport)
    requires
        elapsed_ms > 0,
    ensures
        average_per_sec(old(counters).ok_count, elapsed_ms) <= u32::MAX ==> r.avg_ok_per_sec
            == average_per_sec(old(counters).ok_count, elapsed_ms),
        average_per_sec(old(counters).ok_count, elapsed_ms) > u32::MAX ==> r.avg_ok_per_sec
            == u32::MAX,
        r.total_failed == old(counters).err_count,
        r.total_retry == old(counters).retry_count,
        final(counters).ok_count == 0,
        final(counters).retry_count == 0,
        final(counters).err_count == 0,
{
    let (ok_count, retry_count, err_count) = counters.swap_and_reset();
    MetricsReport {
        avg_ok_per_sec: average_ok_per_sec(ok_count, elapsed_ms),
        total_failed: err_count,
        total_retry: retry_count,
    }
}

/// The client's report line for one window.
pub open spec fn report_line_seq(avg_ok: nat, failed: nat, retry: nat) -> Seq<char> {
    "Avg Success Req/S. "@ + decimal_digits(avg_ok) + ". Total Failed: "@ + decimal_digits(failed)
        + ", Total Retry: "@ + decimal_digits(retry)
}

/// Render the client's report line for one report.
pub fn render_report_line(report: &MetricsReport) -> (s: String)
    ensures
        s@ == report_line_seq(
            report.avg_ok_per_sec as nat,
            report.total_failed as nat,
            report.total_retry as nat,
        ),
{
    let mut s = "Avg Success Req/S. ".to_owned();
    s.append(u64_to_decimal(report.avg_ok_per_sec as u64).as_str());
    s.append(". Total Failed: ");
    s.append(u64_to_decimal(report.total_failed).as_str());
    s.append(", Total Retry: ");
    s.append(u64_to_decimal(report.total_retry).as_str());
    s
}

/// The server's report line for one window.
pub open spec fn server_report_line_seq(avg_ok: nat) -> Seq<char> {
    "Avg Req/S. Success: "@ + decimal_digits(avg_ok) + ". "@
}

/// Render the server's report line for one window's average rate.
pub fn render_server_report_line(avg_ok: u32) -> (s: String)
    ensures
        s@ == server_report_line_seq(avg_ok as nat),
{
    let mut s = "Avg Req/S. Success: ".to_owned();
    s.append(u64_to_decimal(avg_ok as u64).as_str());
    s.append(". ");
    s
}

} // verus!
