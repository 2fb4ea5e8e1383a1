//! Lightbar engine: agent state and elapsed time to an RGB color.
//!
//! Idle, Done and Error show their configured solid colors. Working pulses
//! the configured color sinusoidally between 30% and 100% brightness over
//! one configured period. The sine is computed in integer thousandths with
//! a quadratic approximation that is exact at the quarter points, so the
//! pulse is deterministic from the milliseconds since state entry.

use vstd::prelude::*;

use vstd::arithmetic::div_mod::{lemma_div_is_ordered, lemma_div_pos_is_pos};

use crate::config::LightbarConfig;
use crate::state::AgentState;

verus! {

/// Sine of `deg` degrees in thousandths, by the quadratic approximation
/// `4000 d (180 - d) / (40500 - d (180 - d))` on each half-wave: 0 at 0 and
/// 180, 1000 at 90, -1000 at 270.
pub open spec fn spec_sin_milli(deg: int) -> int
    recommends
        0 <= deg < 360,
{
    if deg <= 180 {
        let p = deg * (180 - deg);
        (4000 * p) / (40500 - p)
    } else {
        let p = (deg - 180) * (360 - deg);
        -((4000 * p) / (40500 - p))
    }
}

/// The half-wave product stays within [0, 8100], so the approximation's
/// denominator stays positive and its value within [-1000, 1000].
pub proof fn lemma_sin_milli_bounds(deg: int)
    requires
        0 <= deg < 360,
    ensures
        -1000 <= spec_sin_milli(deg) <= 1000,
{
    if deg <= 180 {
        let p = deg * (180 - deg);
        assert(0 <= p && p <= 8100) by (nonlinear_arith)
            requires
                0 <= deg <= 180,
                p == deg * (180 - deg),
        ;
        assert(4000 * p <= 1000 * (40500 - p));
        lemma_div_is_ordered(4000 * p, 1000 * (40500 - p), 40500 - p);
        vstd::arithmetic::div_mod::lemma_div_by_multiple(1000, 40500 - p);
        lemma_div_pos_is_pos(4000 * p, 40500 - p);
    } else {
        let p = (deg - 180) * (360 - deg);
        assert(0 <= p && p <= 8100) by (nonlinear_arith)
            requires
                180 < deg < 360,
                p == (deg - 180) * (360 - deg),
        ;
        assert(4000 * p <= 1000 * (40500 - p));
        lemma_div_is_ordered(4000 * p, 1000 * (40500 - p), 40500 - p);
        vstd::arithmetic::div_mod::lemma_div_by_multiple(1000, 40500 - p);
        lemma_div_pos_is_pos(4000 * p, 40500 - p);
    }
}

/// Brightness in thousandths at `elapsed_ms` into the pulse: 650 plus a
/// 350-wide sine, in [300, 1000].
pub open spec fn spec_brightness_milli(elapsed_ms: u64, period_ms: u64) -> int
    recommends
        period_ms > 0,
{
    let deg = ((elapsed_ms as int % period_ms as int) * 360) / (period_ms as int);
    (650000 + 350 * spec_sin_milli(deg)) / 1000
}

/// The phase angle stays inside one turn.
proof fn lemma_deg_in_range(elapsed_ms: u64, period_ms: u64)
    requires
        period_ms > 0,
    ensures
        0 <= ((elapsed_ms as int % period_ms as int) * 360) / (period_ms as int) < 360,
{
    let m = elapsed_ms as int % period_ms as int;
    let p = period_ms as int;
    assert(0 <= m < p);
    assert(0 <= (m * 360) / p < 360) by (nonlinear_arith)
        requires
            0 <= m < p,
    ;
}

/// Brightness stays within [300, 1000] thousandths: the Working pulse
/// never dims below 30% nor brightens past 100%.
pub proof fn lemma_brightness_range(elapsed_ms: u64, period_ms: u64)
    requires
        period_ms > 0,
    ensures
        300 <= spec_brightness_milli(elapsed_ms, period_ms) <= 1000,
{
    lemma_deg_in_range(elapsed_ms, period_ms);
    let deg = ((elapsed_ms as int % period_ms as int) * 360) / (period_ms as int);
    lemma_sin_milli_bounds(deg);
    let n = 650000 + 350 * spec_sin_milli(deg);
    assert(300000 <= n <= 1000000);
    lemma_div_is_ordered(300000, n, 1000);
    lemma_div_is_ordered(n, 1000000, 1000);
}

/// One color channel scaled by the brightness.
pub open spec fn spec_scale_channel(c: u8, b_milli: int) -> u8
    recommends
        0 <= b_milli <= 1000,
{
    ((c as int * b_milli) / 1000) as u8
}

/// The lightbar color for a state: the configured solid triple for Idle,
/// Done and Error; the Working triple scaled by the pulse brightness.
pub open spec fn spec_compute_color(
    config: LightbarConfig,
    state: AgentState,
    elapsed_ms: u64,
) -> (u8, u8, u8)
    recommends
        config.pulse_period_ms > 0,
{
    match state {
        AgentState::Idle => (config.idle.r, config.idle.g, config.idle.b),
        AgentState::Done => (config.done.r, config.done.g, config.done.b),
        AgentState::Error => (config.error.r, config.error.g, config.error.b),
        AgentState::Working => {
            let b = spec_brightness_milli(elapsed_ms, config.pulse_period_ms);
            (
                spec_scale_channel(config.working.r, b),
                spec_scale_channel(config.working.g, b),
                spec_scale_channel(config.working.b, b),
            )
        },
    }
}

fn sin_milli(deg: u64) -> (r: i64)
    requires
        deg < 360,
    ensures
        r as int == spec_sin_milli(deg as int),
{
    if deg <= 180 {
        proof {
            assert(deg * (180 - deg) <= 8100) by (nonlinear_arith)
                requires
                    0 <= deg <= 180,
            ;
        }
        let p = deg * (180 - deg);
        ((4000 * p) / (40500 - p)) as i64
    } else {
        proof {
            assert((deg - 180) * (360 - deg) <= 8100) by (nonlinear_arith)
                requires
                    180 < deg < 360,
            ;
        }
        let p = (deg - 180) * (360 - deg);
        -(((4000 * p) / (40500 - p)) as i64)
    }
}

fn scale_channel(c: u8, b_milli: u64) -> (r: u8)
    requires
        b_milli <= 1000,
    ensures
        r == spec_scale_channel(c, b_milli as int),
{
    proof {
        assert(c as int * b_milli as int <= 255000) by (nonlinear_arith)
            requires
                c <= 255,
                b_milli <= 1000,
        ;
        lemma_div_is_ordered(c as int * b_milli as int, 255000, 1000);
        assert(c as int * b_milli as int >= 0) by (nonlinear_arith)
            requires
                c >= 0,
                b_milli >= 0,
        ;
        lemma_div_pos_is_pos(c as int * b_milli as int, 1000);
    }
    ((c as u64 * b_milli) / 1000) as u8
}

/// Compute the current lightbar RGB for a state and the milliseconds since
/// that state was entered. The pulse period must be positive and fit a
/// 32-bit count of milliseconds so the phase arithmetic stays in range.
pub fn compute_color(config: &LightbarConfig, state: AgentState, elapsed_ms: u64) -> (r: (
    u8,
    u8,
    u8,
))
    requires
        0 < config.pulse_period_ms <= 0xFFFF_FFFF,
    ensures
        r == spec_compute_color(*config, state, elapsed_ms),
{
    match state {
        AgentState::Idle => (config.idle.r, config.idle.g, config.idle.b),
        AgentState::Done => (config.done.r, config.done.g, config.done.b),
        AgentState::Error => (config.error.r, config.error.g, config.error.b),
        AgentState::Working => {
            let period = config.pulse_period_ms;
            let m = elapsed_ms % period;
            proof {
                lemma_deg_in_range(elapsed_ms, period);
                assert(m * 360 <= 0xFFFF_FFFFu64 * 360) by (nonlinear_arith)
                    requires
                        m <= 0xFFFF_FFFFu64,
                ;
            }
            let deg = (m * 360) / period;
            let s = sin_milli(deg);
            proof {
                lemma_sin_milli_bounds(deg as int);
            }
            let n: u64 = (650000 + 350 * s) as u64;
            let b = n / 1000;
            proof {
                lemma_brightness_range(elapsed_ms, period);
            }
            (
                scale_channel(config.working.r, b),
                scale_channel(config.working.g, b),
                scale_channel(config.working.b, b),
            )
        },
    }
}

} // verus!
