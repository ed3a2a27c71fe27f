//! Exponential backoff policy with bounded elapsed time and injected jitter.
//!
//! All durations are whole milliseconds. The randomization factor is given
//! in thousandths (500 stands for one half) and the growth multiplier is a
//! whole number, so every interval computation is exact integer arithmetic.
//! The jitter draw is likewise injected as a number of thousandths in
//! `0 ..= 2000`, standing for a uniform pick from the interval from minus
//! one to plus one; callers that want randomized jitter draw it from the
//! process random source (see the `rng` module).
//!
//! The default interval cap is 1500 milliseconds. (A seconds-denominated
//! cap of 1500 would make the cap unreachable within the 5 second elapsed
//! budget and disable the cap clamp entirely, so the milliseconds reading
//! is the meaningful one and is the one fixed here.)

use vstd::arithmetic::div_mod::lemma_div_is_ordered;
use vstd::arithmetic::mul::lemma_mul_inequality;
use vstd::arithmetic::power::pow;
use vstd::prelude::*;

verus! {

/// Default first wait between attempts, in milliseconds.
pub const INITIAL_INTERVAL_MILLIS: u64 = 200;

/// Default growth factor applied to the interval after each retry.
pub const MULTIPLIER: u64 = 2;

/// Default randomization factor, in thousandths: the jitter may move a
/// wait by up to half of the current interval in either direction.
pub const RANDOMIZATION_PERMILLE: u64 = 500;

/// Default cap on any single wait, in milliseconds.
pub const MAX_INTERVAL_MILLIS: u64 = 1500;

/// Default cap on the total duration of one retry sequence, in
/// milliseconds.
pub const MAX_ELAPSED_TIME_MILLIS: u64 = 5000;

/// The parameters of one backoff sequence. Fixed once constructed.
#[derive(Clone, Copy, PartialEq, Eq, Structural, Debug)]
pub struct BackoffConfig {
    /// The interval the sequence starts from, in milliseconds.
    pub initial_interval_ms: u64,
    /// Upper bound on any computed wait, in milliseconds.
    pub max_interval_ms: u64,
    /// Whole-number factor by which the interval grows after each retry.
    pub multiplier: u64,
    /// Randomization factor in thousandths, at most 1000.
    pub randomization_permille: u64,
    /// Total time budget of one retry sequence, in milliseconds.
    pub max_elapsed_ms: u64,
}

impl BackoffConfig {
    /// The bounds every usable configuration satisfies. The two product
    /// bounds keep every interval computation within a `u64`.
    pub open spec fn wf(self) -> bool {
        &&& self.initial_interval_ms <= self.max_interval_ms
        &&& 1 <= self.multiplier
        &&& self.randomization_permille <= 1000
        &&& self.max_interval_ms * self.multiplier <= u64::MAX
        &&& self.max_interval_ms * 1000000 <= u64::MAX
    }
}

/// The default configuration as a spec-level value.
pub open spec fn default_config() -> BackoffConfig {
    BackoffConfig {
        initial_interval_ms: INITIAL_INTERVAL_MILLIS,
        max_interval_ms: MAX_INTERVAL_MILLIS,
        multiplier: MULTIPLIER,
        randomization_permille: RANDOMIZATION_PERMILLE,
        max_elapsed_ms: MAX_ELAPSED_TIME_MILLIS,
    }
}

impl Default for BackoffConfig {
    /// The defaults above: 200 ms initial interval, doubling, one-half
    /// randomization, 1500 ms interval cap, 5 s elapsed budget.
    fn default() -> (r: BackoffConfig)
        ensures
            r == default_config(),
            r.wf(),
    {
        BackoffConfig {
            initial_interval_ms: INITIAL_INTERVAL_MILLIS,
            max_interval_ms: MAX_INTERVAL_MILLIS,
            multiplier: MULTIPLIER,
            randomization_permille: RANDOMIZATION_PERMILLE,
            max_elapsed_ms: MAX_ELAPSED_TIME_MILLIS,
        }
    }
}

/// `v` clamped into `0 ..= cap`.
pub open spec fn clamped(v: int, cap: u64) -> u64 {
    if v > cap {
        cap
    } else if v < 0 {
        0u64
    } else {
        v as u64
    }
}

/// The signed jitter added to `current`: the draw (thousandths in
/// `0 ..= 2000`) is centered at 1000, scaled by the randomization factor
/// and by `current`, with the division rounding the magnitude down.
pub open spec fn jitter_amount(current: u64, permille: u64, draw: u64) -> int {
    if draw >= 1000 {
        (current * permille * (draw - 1000)) / 1000000
    } else {
        -((current * permille * (1000 - draw)) / 1000000)
    }
}

/// The wait handed out for one retry: the current interval plus jitter,
/// clamped into `0 ..= max_interval_ms`.
pub open spec fn jittered_wait(current: u64, config: BackoffConfig, draw: u64) -> u64 {
    clamped(current + jitter_amount(current, config.randomization_permille, draw), config.max_interval_ms)
}

/// The next current interval: multiplied, then capped at the maximum.
pub open spec fn grown_interval(current: u64, config: BackoffConfig) -> u64 {
    if current * config.multiplier > config.max_interval_ms {
        config.max_interval_ms
    } else {
        (current * config.multiplier) as u64
    }
}

/// The current interval after `k` retries have been handed out, before
/// jitter: the growth recurrence applied `k` times to the initial
/// interval.
pub open spec fn interval_after(config: BackoffConfig, k: nat) -> u64
    decreases k,
{
    if k == 0 {
        config.initial_interval_ms
    } else {
        grown_interval(interval_after(config, (k - 1) as nat), config)
    }
}

/// One retry sequence: the interval state and the moment the sequence
/// started, against which the elapsed budget is measured.
#[derive(Clone, Copy, PartialEq, Eq, Structural, Debug)]
pub struct BackoffPolicy {
    /// The fixed parameters of this sequence.
    pub config: BackoffConfig,
    /// The interval the next wait is computed from, in milliseconds.
    pub current_interval_ms: u64,
    /// The timestamp at which this sequence was last reset, in
    /// milliseconds.
    pub start_time_ms: u64,
}

impl BackoffPolicy {
    /// The invariant every policy value satisfies between calls: a usable
    /// configuration, and a current interval within its bounds.
    pub open spec fn wf(self) -> bool {
        &&& self.config.wf()
        &&& self.config.initial_interval_ms <= self.current_interval_ms
        &&& self.current_interval_ms <= self.config.max_interval_ms
    }

    /// A fresh sequence: the current interval is the initial interval and
    /// the elapsed budget is measured from `now_ms`.
    pub fn new(config: BackoffConfig, now_ms: u64) -> (r: BackoffPolicy)
        requires
            config.wf(),
        ensures
            r.config == config,
            r.current_interval_ms == config.initial_interval_ms,
            r.start_time_ms == now_ms,
            r.wf(),
    {
        BackoffPolicy {
            config,
            current_interval_ms: config.initial_interval_ms,
            start_time_ms: now_ms,
        }
    }

    /// Start the sequence over: the current interval returns to the
    /// initial interval and the budget is measured from `now_ms`.
    pub fn reset(&mut self, now_ms: u64)
        requires
            old(self).config.wf(),
        ensures
            final(self).config == old(self).config,
            final(self).current_interval_ms == old(self).config.initial_interval_ms,
            final(self).start_time_ms == now_ms,
            final(self).wf(),
    {
        self.current_interval_ms = self.config.initial_interval_ms;
        self.start_time_ms = now_ms;
    }

    /// The next wait, or `None` once the elapsed budget is exhausted —
    /// exactly when more than `max_elapsed_ms` has passed since the reset,
    /// and never before. On `Some`, the returned wait is the jittered
    /// current interval and the current interval grows by the multiplier,
    /// capped; the rest of the state is untouched.
    pub fn next_interval(&mut self, now_ms: u64, unit_draw: u64) -> (r: Option<u64>)
        requires
            old(self).wf(),
            now_ms >= old(self).start_time_ms,
            unit_draw <= 2000,
        ensures
            final(self).config == old(self).config,
            final(self).start_time_ms == old(self).start_time_ms,
            final(self).wf(),
            (r is None) <==> now_ms - old(self).start_time_ms > old(self).config.max_elapsed_ms,
            r is None ==> *final(self) == *old(self),
            r is Some ==> r.unwrap() == jittered_wait(
                old(self).current_interval_ms,
                old(self).config,
                unit_draw,
            ),
            r is Some ==> final(self).current_interval_ms == grown_interval(
                old(self).current_interval_ms,
                old(self).config,
            ),
    {
        if now_ms - self.start_time_ms > self.config.max_elapsed_ms {
            return None;
        }
        let current = self.current_interval_ms;
        let cfg = self.config;
        proof {
            lemma_mul_inequality(
                current as int,
                cfg.max_interval_ms as int,
                cfg.randomization_permille as int,
            );
            assert(cfg.max_interval_ms * cfg.randomization_permille <= cfg.max_interval_ms
                * 1000) by (nonlinear_arith)
                requires
                    cfg.randomization_permille <= 1000,
                    cfg.max_interval_ms >= 0,
            ;
        }
        let scaled: u64 = current * cfg.randomization_permille;
        let magnitude: u64;
        if unit_draw >= 1000 {
            let off: u64 = unit_draw - 1000;
            proof {
                assert(scaled * off <= cfg.max_interval_ms * 1000000) by (nonlinear_arith)
                    requires
                        scaled <= cfg.max_interval_ms * 1000,
                        off <= 1000,
                        cfg.max_interval_ms >= 0,
                ;
            }
            magnitude = (scaled * off) / 1000000;
        } else {
            let off: u64 = 1000 - unit_draw;
            proof {
                assert(scaled * off <= cfg.max_interval_ms * 1000000) by (nonlinear_arith)
                    requires
                        scaled <= cfg.max_interval_ms * 1000,
                        off <= 1000,
                        cfg.max_interval_ms >= 0,
                ;
            }
            magnitude = (scaled * off) / 1000000;
        }
        proof {
            lemma_magnitude_at_most_current(current, cfg.randomization_permille, unit_draw);
        }
        let unclamped: u64 = if unit_draw >= 1000 {
            current + magnitude
        } else {
            current - magnitude
        };
        let wait: u64 = if unclamped > cfg.max_interval_ms {
            cfg.max_interval_ms
        } else {
            unclamped
        };
        proof {
            lemma_mul_inequality(
                current as int,
                cfg.max_interval_ms as int,
                cfg.multiplier as int,
            );
        }
        let grown: u64 = current * cfg.multiplier;
        self.current_interval_ms = if grown > cfg.max_interval_ms {
            cfg.max_interval_ms
        } else {
            grown
        };
        proof {
            assert(current <= current * cfg.multiplier) by (nonlinear_arith)
                requires
                    1 <= cfg.multiplier,
                    current >= 0,
            ;
        }
        Some(wait)
    }
}

/// The jitter magnitude never exceeds the interval it perturbs, so the
/// jittered value never goes below zero.
proof fn lemma_magnitude_at_most_current(current: u64, permille: u64, draw: u64)
    requires
        permille <= 1000,
        draw <= 2000,
    ensures
        jitter_amount(current, permille, draw) <= current,
        -(current as int) <= jitter_amount(current, permille, draw),
{
    let off: int = if draw >= 1000 {
        draw - 1000
    } else {
        1000 - draw
    };
    assert(current * permille * off <= current * 1000000) by (nonlinear_arith)
        requires
            permille <= 1000,
            0 <= off <= 1000,
            current >= 0,
    ;
    lemma_div_is_ordered(current * permille * off, current * 1000000, 1000000);
    assert(current * 1000000 / 1000000 == current as int) by (nonlinear_arith);
    assert(current * permille * off >= 0) by (nonlinear_arith)
        requires
            current >= 0,
            permille >= 0,
            off >= 0,
    ;
    assert(current * permille * off / 1000000 >= 0);
}

/// The wait handed out for one retry always lies within the jitter band
/// around the current interval — no more than the randomization fraction
/// away from it — further capped by the configured maximum.
pub proof fn lemma_wait_within_jitter_band(current: u64, config: BackoffConfig, draw: u64)
    requires
        config.wf(),
        current <= config.max_interval_ms,
        draw <= 2000,
    ensures
        jittered_wait(current, config, draw) >= current - current * config.randomization_permille
            / 1000,
        jittered_wait(current, config, draw) <= current + current * config.randomization_permille
            / 1000,
        jittered_wait(current, config, draw) <= config.max_interval_ms,
{
    let permille = config.randomization_permille;
    let off: int = if draw >= 1000 {
        draw - 1000
    } else {
        1000 - draw
    };
    lemma_magnitude_at_most_current(current, permille, draw);
    assert(current * permille * off <= current * permille * 1000) by (nonlinear_arith)
        requires
            0 <= off <= 1000,
            current >= 0,
            permille >= 0,
    ;
    lemma_div_is_ordered(current * permille * off, current * permille * 1000, 1000000);
    assert(current * permille * 1000 / 1000000 == current * permille / 1000) by (nonlinear_arith)
        requires
            current >= 0,
            permille >= 0,
    ;
    assert(current * permille * off / 1000000 >= 0) by (nonlinear_arith)
        requires
            current >= 0,
            permille >= 0,
            off >= 0,
    ;
    assert(current * permille / 1000 >= 0) by (nonlinear_arith)
        requires
            current >= 0,
            permille >= 0,
    ;
}

/// After `k` retries the current interval is exactly the initial interval
/// times the `k`-th power of the multiplier, capped at the configured
/// maximum.
pub proof fn lemma_interval_after_growth(config: BackoffConfig, k: nat)
    requires
        config.wf(),
    ensures
        interval_after(config, k) == if config.initial_interval_ms * pow(config.multiplier as int, k)
            > config.max_interval_ms {
            config.max_interval_ms as int
        } else {
            config.initial_interval_ms * pow(config.multiplier as int, k)
        },
    decreases k,
{
    reveal(pow);
    let i = config.initial_interval_ms as int;
    let m = config.multiplier as int;
    let cap = config.max_interval_ms as int;
    if k == 0 {
        assert(pow(m, 0) == 1);
    } else {
        lemma_interval_after_growth(config, (k - 1) as nat);
        let prev = interval_after(config, (k - 1) as nat) as int;
        let p_prev = pow(m, (k - 1) as nat);
        assert(pow(m, k) == m * p_prev);
        lemma_pow_at_least_one(m, (k - 1) as nat);
        if i * p_prev > cap {
            assert(prev == cap);
            assert(cap * m >= cap) by (nonlinear_arith)
                requires
                    m >= 1,
                    cap >= 0,
            ;
            assert(i * (m * p_prev) >= i * p_prev) by (nonlinear_arith)
                requires
                    m >= 1,
                    i >= 0,
                    p_prev >= 1,
            ;
            assert(interval_after(config, k) == cap);
        } else {
            assert(prev == i * p_prev);
            assert(prev * m == i * (m * p_prev)) by (nonlinear_arith)
                requires
                    prev == i * p_prev,
            ;
        }
    }
}

/// Any positive base raised to any power is at least one.
proof fn lemma_pow_at_least_one(b: int, e: nat)
    requires
        b >= 1,
    ensures
        pow(b, e) >= 1,
    decreases e,
{
    reveal(pow);
    if e > 0 {
        lemma_pow_at_least_one(b, (e - 1) as nat);
        assert(b * pow(b, (e - 1) as nat) >= 1) by (nonlinear_arith)
            requires
                b >= 1,
                pow(b, (e - 1) as nat) >= 1,
        ;
    }
}

} // verus!
