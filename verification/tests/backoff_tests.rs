use loadgen::backoff::{BackoffConfig, BackoffPolicy};

fn default_config() -> BackoffConfig {
    BackoffConfig::default()
}

#[test]
fn default_config_values() {
    let c = default_config();
    assert_eq!(c.initial_interval_ms, 200);
    assert_eq!(c.max_interval_ms, 1500);
    assert_eq!(c.multiplier, 2);
    assert_eq!(c.randomization_permille, 500);
    assert_eq!(c.max_elapsed_ms, 5000);
}

#[test]
fn first_interval_without_jitter() {
    let mut p = BackoffPolicy::new(default_config(), 0);
    // A centered draw (1000) adds no jitter.
    assert_eq!(p.next_interval(0, 1000), Some(200));
    assert_eq!(p.current_interval_ms, 400);
}

#[test]
fn jitter_reaches_both_band_edges() {
    // Draw 0 is the lowest pick: wait = 200 - 200 * 500 / 1000 = 100.
    let mut p = BackoffPolicy::new(default_config(), 0);
    assert_eq!(p.next_interval(0, 0), Some(100));
    // Draw 2000 is the highest pick: wait = 200 + 100 = 300.
    let mut q = BackoffPolicy::new(default_config(), 0);
    assert_eq!(q.next_interval(0, 2000), Some(300));
}

#[test]
fn interval_doubles_then_caps() {
    let mut p = BackoffPolicy::new(default_config(), 0);
    let mut waits = Vec::new();
    for _ in 0..5 {
        waits.push(p.next_interval(0, 1000).unwrap());
    }
    // 200, 400, 800, then capped at 1500 from the fourth call on.
    assert_eq!(waits, vec![200, 400, 800, 1500, 1500]);
    assert_eq!(p.current_interval_ms, 1500);
}

#[test]
fn exhausts_exactly_after_budget_and_never_before() {
    let mut p = BackoffPolicy::new(default_config(), 0);
    // Exactly at the budget the policy still hands out a wait.
    assert!(p.next_interval(5000, 1000).is_some());
    // One millisecond past the budget it stops, and the state is kept.
    let before = p.current_interval_ms;
    assert_eq!(p.next_interval(5001, 1000), None);
    assert_eq!(p.current_interval_ms, before);
}

#[test]
fn reset_restores_initial_interval_and_start() {
    let mut p = BackoffPolicy::new(default_config(), 0);
    p.next_interval(0, 1000);
    p.next_interval(0, 1000);
    assert_eq!(p.current_interval_ms, 800);
    p.reset(77);
    assert_eq!(p.current_interval_ms, 200);
    assert_eq!(p.start_time_ms, 77);
}

#[test]
fn wait_stays_within_jitter_band_for_many_draws() {
    for draw in (0..=2000).step_by(50) {
        let mut p = BackoffPolicy::new(default_config(), 0);
        let w = p.next_interval(0, draw).unwrap();
        assert!(w >= 100 && w <= 300, "draw {} gave wait {}", draw, w);
    }
}
