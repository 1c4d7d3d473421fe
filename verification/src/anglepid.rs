//! Angle/rate controller: cascaded rate-then-angle control with integral
//! anti-windup, iterm relax, a D-min derivative boost, feedforward, and
//! dynamic low-pass-filter bookkeeping.
//!
//! All quantities are fixed-point integers scaled by [`crate::utils::SCALE`]:
//! demand channels are dimensionless commands (full deflection = `SCALE`),
//! angles are in degrees and rates in degrees per second, both times `SCALE`.

use vstd::prelude::*;
use crate::Demands;
use crate::VehicleState;
use crate::utils::{
    clamp_spec, constrain, constrain_abs, div_trunc, lemma_mul_bound, lemma_tdiv_bound,
    lemma_tdiv_mag, mul_div, tdiv, SCALE, USEC_PER_SEC,
};
use vstd::arithmetic::div_mod::{
    lemma_multiply_divide_le,
};

verus! {

// ---------------------------------------------------------------------------
// Tuning constants.  These named parameters are the contract of the control
// law; the `_SCALED` forms express the same quantities in fixed-point units.
// ---------------------------------------------------------------------------

/// Minimum time between dynamic-filter cutoff recomputations, microseconds.
pub const DYN_LPF_THROTTLE_UPDATE_DELAY_US: i64 = 5000;

/// Number of quantization buckets for throttle-driven filter updates.
pub const DYN_LPF_THROTTLE_STEPS: i64 = 100;

/// Width of one throttle quantization bucket in scaled throttle units.
pub const THROTTLE_BUCKET_WIDTH: i64 = 10;

/// Expo of the throttle-to-cutoff curve, in tenths.
pub const DYN_LPF_CURVE_EXPO: i64 = 5;

/// Lowest dynamic cutoff of the first D-term low-pass stage, Hz.
pub const DTERM_LPF1_DYN_MIN_HZ: i64 = 75;

/// Highest dynamic cutoff of the first D-term low-pass stage, Hz.
pub const DTERM_LPF1_DYN_MAX_HZ: i64 = 150;

/// Fixed cutoff of the second D-term low-pass stage, Hz; a parameter of the
/// external filter collaborator.
pub const DTERM_LPF2_HZ: i64 = 150;

/// Yaw output low-pass cutoff, Hz; a parameter of the external filter
/// collaborator.
pub const YAW_LOWPASS_HZ: i64 = 100;

/// Setpoint rate above which the integral contribution is fully
/// suppressed, degrees per second.
pub const ITERM_RELAX_SETPOINT_THRESHOLD: i64 = 40;

/// High-pass cutoff of the iterm-relax setpoint path, Hz; a parameter of
/// the external filter collaborator.
pub const ITERM_RELAX_CUTOFF: i64 = 15;

/// Percentage of the output range beyond which the integral freezes.
pub const ITERM_WINDUP_POINT_PERCENT: i64 = 85;

/// Bound on each integral accumulator.
pub const ITERM_LIMIT: i64 = 400;

/// Baseline derivative gain of the D-min ramp.
pub const D_MIN: i64 = 30;

/// Width of the D-min ramp above its baseline.
pub const D_MIN_GAIN: i64 = 37;

/// Time advance of the setpoint contribution to the D-min boost, percent.
pub const D_MIN_ADVANCE: i64 = 20;

/// Input cutoff of the D-min activity measure, Hz; a parameter of the
/// external filter collaborator.
pub const D_MIN_RANGE_HZ: i64 = 85;

/// Smoothing cutoff of the D-min boost, Hz; a parameter of the external
/// filter collaborator.
pub const D_MIN_LOWPASS_HZ: i64 = 35;

/// Numerator of the gyro-activity weight of the D-min boost (`0.00008`).
pub const D_MIN_GAIN_FACTOR_NUM: i64 = 8;

/// Denominator of the gyro-activity weight of the D-min boost.
pub const D_MIN_GAIN_FACTOR_DEN: i64 = 100000;

/// Numerator of the setpoint-activity weight of the D-min boost (`0.00008`).
pub const D_MIN_SETPOINT_GAIN_FACTOR_NUM: i64 = 8;

/// Denominator of the setpoint-activity weight of the D-min boost.
pub const D_MIN_SETPOINT_GAIN_FACTOR_DEN: i64 = 100000;

/// Bound on the feedforward setpoint derivative, degrees per second.
pub const FEEDFORWARD_MAX_RATE_LIMIT: i64 = 90;

/// Roll/pitch rate acceleration limit; zero disables the limiter.
pub const RATE_ACCEL_LIMIT: i64 = 0;

/// Yaw rate acceleration limit; zero disables the limiter.
pub const YAW_RATE_ACCEL_LIMIT: i64 = 0;

/// Bound on the level-mode angle error, degrees.
pub const LEVEL_ANGLE_LIMIT: i64 = 45;

/// Divisor taking a clamped axis sum to the demand vector's numeric range.
pub const OUTPUT_SCALING: i64 = 1000;

/// Bound on the roll/pitch axis sums before output scaling.
pub const LIMIT: i64 = 500;

/// Bound on the yaw axis sum before output scaling.
pub const LIMIT_YAW: i64 = 400;

/// [`ITERM_LIMIT`] in fixed-point units.
pub const ITERM_LIMIT_SCALED: i64 = ITERM_LIMIT * SCALE;

/// [`LEVEL_ANGLE_LIMIT`] in fixed-point units.
pub const LEVEL_ANGLE_LIMIT_SCALED: i64 = LEVEL_ANGLE_LIMIT * SCALE;

/// [`LIMIT`] in fixed-point units.
pub const LIMIT_SCALED: i64 = LIMIT * SCALE;

/// [`LIMIT_YAW`] in fixed-point units.
pub const LIMIT_YAW_SCALED: i64 = LIMIT_YAW * SCALE;

/// Bound on the roll/pitch channels of the corrected demand vector.
pub const OUTPUT_LIMIT: i64 = LIMIT;

/// Bound on the yaw channel of the corrected demand vector.
pub const OUTPUT_LIMIT_YAW: i64 = LIMIT_YAW;

/// [`ITERM_RELAX_SETPOINT_THRESHOLD`] in fixed-point units.
pub const ITERM_RELAX_THRESHOLD_SCALED: i64 = ITERM_RELAX_SETPOINT_THRESHOLD * SCALE;

/// Axis sum magnitude beyond which the integral freezes, fixed-point.
pub const ITERM_WINDUP_POINT_SCALED: i64 = 425 * SCALE;

/// [`FEEDFORWARD_MAX_RATE_LIMIT`] in fixed-point units.
pub const FEEDFORWARD_MAX_RATE_LIMIT_SCALED: i64 = FEEDFORWARD_MAX_RATE_LIMIT * SCALE;

/// Defensive bound on signal derivatives, fixed-point degrees per second
/// squared; a sum point clamp against degenerate inputs.
pub const DTERM_DERIV_LIMIT_SCALED: i64 = 100_000_000;

/// Largest accepted gain: `10.0` in fixed-point units.  Construction fails
/// closed on gains outside `[0, GAIN_LIMIT_SCALED]`.
pub const GAIN_LIMIT_SCALED: i64 = 10 * SCALE;

/// Sanitization bound on the roll/pitch/yaw demand channels.
pub const MAX_DEMAND_SCALED: i64 = 2 * SCALE;

/// Sanitization bound on orientation angles, fixed-point degrees.
pub const MAX_ANGLE_SCALED: i64 = 180 * SCALE;

/// Sanitization bound on angular rates, fixed-point degrees per second.
pub const MAX_RATE_SCALED: i64 = 2000 * SCALE;

/// Epsilon floor on the elapsed time per cycle, microseconds: guards every
/// division by elapsed time.
pub const MIN_DT_USEC: i64 = 100;

/// Cap on the elapsed time per cycle, microseconds.
pub const MAX_DT_USEC: i64 = 1_000_000;

/// Bound on every rate setpoint a sanitized input can produce.
pub const SETPOINT_MAX_SCALED: i64 = 800_000;

/// Bound on every rate error a sanitized input can produce.
pub const RATE_ERROR_MAX_SCALED: i64 = 2_800_000;

// ---------------------------------------------------------------------------
// Input sanitization: every input channel is clamped to a documented bound
// before it enters the control law, so degenerate upstream values degrade
// to bounded output instead of failing.
// ---------------------------------------------------------------------------

/// Throttle restricted to the valid `[0, 1]` range, fixed-point.
pub open spec fn san_throttle(t: int) -> int {
    clamp_spec(t, 0, SCALE as int)
}

/// A roll/pitch/yaw demand channel restricted to its sanitization bound.
pub open spec fn san_demand(x: int) -> int {
    clamp_spec(x, -(MAX_DEMAND_SCALED as int), MAX_DEMAND_SCALED as int)
}

/// An orientation angle restricted to its sanitization bound.
pub open spec fn san_angle(x: int) -> int {
    clamp_spec(x, -(MAX_ANGLE_SCALED as int), MAX_ANGLE_SCALED as int)
}

/// An angular rate restricted to its sanitization bound.
pub open spec fn san_rate(x: int) -> int {
    clamp_spec(x, -(MAX_RATE_SCALED as int), MAX_RATE_SCALED as int)
}

/// Elapsed time floored to a minimum epsilon and capped at one second.
pub open spec fn san_dt(dt: int) -> int {
    clamp_spec(dt, MIN_DT_USEC as int, MAX_DT_USEC as int)
}

// ---------------------------------------------------------------------------
// The control law, stated as spec functions over fixed-point integers.
// ---------------------------------------------------------------------------

/// Magnitude of an integer.
pub open spec fn iabs(x: int) -> int {
    if x >= 0 {
        x
    } else {
        -x
    }
}

/// Level blending: a demand channel commands an angle (full deflection is
/// `LEVEL_ANGLE_LIMIT` degrees); the angle error, clamped to the level
/// limit, times the level gain is the rate setpoint of the inner loop.
pub open spec fn level_setpoint(k_level_p: int, demand: int, angle: int) -> int {
    let commanded = tdiv(demand * (LEVEL_ANGLE_LIMIT_SCALED as int), SCALE as int);
    let err = clamp_spec(
        commanded - angle,
        -(LEVEL_ANGLE_LIMIT_SCALED as int),
        LEVEL_ANGLE_LIMIT_SCALED as int,
    );
    tdiv(k_level_p * err, SCALE as int)
}

/// The yaw channel commands a rate directly: full deflection is
/// `LIMIT_YAW` degrees per second.
pub open spec fn yaw_setpoint(demand: int) -> int {
    tdiv(demand * (LIMIT_YAW_SCALED as int), SCALE as int)
}

/// Inner-loop rate error: setpoint minus measured rate.
pub open spec fn rate_error(sp: int, rate: int) -> int {
    sp - rate
}

/// Proportional term.
pub open spec fn p_term(k_p: int, e: int) -> int {
    tdiv(k_p * e, SCALE as int)
}

/// Iterm relax: full integral suppression at setpoint rates at or above
/// the threshold, a linear blend below it.
pub open spec fn relax_factor(sp: int) -> int {
    if iabs(sp) >= ITERM_RELAX_THRESHOLD_SCALED {
        0
    } else {
        SCALE - tdiv((SCALE as int) * iabs(sp), ITERM_RELAX_THRESHOLD_SCALED as int)
    }
}

/// Relax-weighted integral increment for one cycle of `dt` microseconds.
pub open spec fn iterm_delta(k_i: int, sp: int, rate: int, dt: int) -> int {
    let per_sec = tdiv(k_i * rate_error(sp, rate), SCALE as int);
    let per_cycle = tdiv(tdiv(per_sec * dt, USEC_PER_SEC as int) * relax_factor(sp), SCALE as int)
        ;
    per_cycle
}

/// Windup freeze: the integral stops accumulating once the demand estimate
/// saturates beyond the windup point on the corresponding sign.
pub open spec fn iterm_frozen(k_p: int, sp: int, rate: int, i0: int, delta: int) -> bool {
    let est = p_term(k_p, rate_error(sp, rate)) + i0;
    (est > ITERM_WINDUP_POINT_SCALED && delta > 0) || (est < -(ITERM_WINDUP_POINT_SCALED as int)
        && delta < 0)
}

/// Integral accumulator after one cycle: frozen at saturation, otherwise
/// accumulated and clamped to `ITERM_LIMIT`.
pub open spec fn next_iterm(k_p: int, k_i: int, sp: int, rate: int, i0: int, dt: int) -> int {
    let delta = iterm_delta(k_i, sp, rate, dt);
    if iterm_frozen(k_p, sp, rate, i0, delta) {
        i0
    } else {
        clamp_spec(i0 + delta, -(ITERM_LIMIT_SCALED as int), ITERM_LIMIT_SCALED as int)
    }
}

/// Time derivative of a signal over `dt` microseconds, defensively clamped.
pub open spec fn signal_deriv(cur: int, prev: int, dt: int) -> int {
    clamp_spec(
        tdiv((cur - prev) * (USEC_PER_SEC as int), dt),
        -(DTERM_DERIV_LIMIT_SCALED as int),
        DTERM_DERIV_LIMIT_SCALED as int,
    )
}

/// D-min boost factor in `[0, SCALE]`: the larger of the gyro-activity and
/// setpoint-activity contributions, the latter advanced by
/// `D_MIN_ADVANCE` percent.
pub open spec fn d_min_factor(gyro_deriv: int, sp_deriv: int) -> int {
    let fg = tdiv(iabs(gyro_deriv) * (D_MIN_GAIN_FACTOR_NUM as int), D_MIN_GAIN_FACTOR_DEN as int);
    let fs_raw = tdiv(
        iabs(sp_deriv) * (D_MIN_SETPOINT_GAIN_FACTOR_NUM as int),
        D_MIN_SETPOINT_GAIN_FACTOR_DEN as int,
    );
    let fs = tdiv(fs_raw * (100 + D_MIN_ADVANCE), 100);
    clamp_spec(if fg >= fs { fg } else { fs }, 0, SCALE as int)
}

/// Derivative-gain ramp: `D_MIN` at no activity, `D_MIN + D_MIN_GAIN` at a
/// saturated boost factor, in fixed-point units.
pub open spec fn d_gain_ramp(factor: int) -> int {
    D_MIN * SCALE + tdiv(D_MIN_GAIN * SCALE * factor, SCALE as int)
}

/// Derivative term: the configured gain, scaled down to the D-min ramp,
/// applied to the clamped error derivative.
pub open spec fn d_term(k_d: int, e: int, e0: int, sp: int, s0: int, dt: int) -> int {
    let deriv = signal_deriv(e, e0, dt);
    let factor = d_min_factor(deriv, signal_deriv(sp, s0, dt));
    let k_eff = tdiv(k_d * d_gain_ramp(factor), (D_MIN + D_MIN_GAIN) * SCALE);
    tdiv(k_eff * deriv, SCALE as int)
}

/// Feedforward term: the rate-limited setpoint derivative times the
/// feedforward gain; zero until the feedforward path is initialized, to
/// avoid a startup transient.
pub open spec fn ff_term(k_f: int, sp: int, s0: int, dt: int, ff_on: bool) -> int {
    if ff_on {
        let limited = clamp_spec(
            signal_deriv(sp, s0, dt),
            -(FEEDFORWARD_MAX_RATE_LIMIT_SCALED as int),
            FEEDFORWARD_MAX_RATE_LIMIT_SCALED as int,
        );
        tdiv(k_f * limited, SCALE as int)
    } else {
        0
    }
}

/// Unclamped axis sum: proportional, integral, derivative and feedforward
/// terms of one axis for one cycle.
pub open spec fn axis_sum(
    k_p: int,
    k_i: int,
    k_d: int,
    k_f: int,
    sp: int,
    rate: int,
    i0: int,
    e0: int,
    s0: int,
    ff_on: bool,
    dt: int,
) -> int {
    let e = rate_error(sp, rate);
    p_term(k_p, e) + next_iterm(k_p, k_i, sp, rate, i0, dt) + d_term(k_d, e, e0, sp, s0, dt)
        + ff_term(k_f, sp, s0, dt, ff_on)
}

/// Output shaping: the axis sum clamped to its limit, scaled to the demand
/// vector's numeric range.
pub open spec fn axis_output(sum: int, limit: int) -> int {
    tdiv(clamp_spec(sum, -limit, limit), OUTPUT_SCALING as int)
}

// ---------------------------------------------------------------------------
// Executable per-axis cycle.
// ---------------------------------------------------------------------------

/// One cycle of the rate PID on one axis.  Returns the shaped output, the
/// new integral accumulator, and the rate error of this cycle.
fn update_axis(
    k_p: i64,
    k_i: i64,
    k_d: i64,
    k_f: i64,
    sp: i64,
    rate: i64,
    i0: i64,
    e0: i64,
    s0: i64,
    ff_on: bool,
    dt: i64,
    limit: i64,
) -> (r: (i64, i64, i64))
    requires
        0 <= k_p <= GAIN_LIMIT_SCALED,
        0 <= k_i <= GAIN_LIMIT_SCALED,
        0 <= k_d <= GAIN_LIMIT_SCALED,
        0 <= k_f <= GAIN_LIMIT_SCALED,
        -SETPOINT_MAX_SCALED <= sp <= SETPOINT_MAX_SCALED,
        -MAX_RATE_SCALED <= rate <= MAX_RATE_SCALED,
        -ITERM_LIMIT_SCALED <= i0 <= ITERM_LIMIT_SCALED,
        -RATE_ERROR_MAX_SCALED <= e0 <= RATE_ERROR_MAX_SCALED,
        -SETPOINT_MAX_SCALED <= s0 <= SETPOINT_MAX_SCALED,
        MIN_DT_USEC <= dt <= MAX_DT_USEC,
        limit == LIMIT_SCALED || limit == LIMIT_YAW_SCALED,
    ensures
        r.0 == axis_output(
            axis_sum(
                k_p as int,
                k_i as int,
                k_d as int,
                k_f as int,
                sp as int,
                rate as int,
                i0 as int,
                e0 as int,
                s0 as int,
                ff_on,
                dt as int,
            ),
            limit as int,
        ),
        r.1 == next_iterm(k_p as int, k_i as int, sp as int, rate as int, i0 as int, dt as int),
        r.2 == rate_error(sp as int, rate as int),
        -ITERM_LIMIT_SCALED <= r.1 <= ITERM_LIMIT_SCALED,
        -RATE_ERROR_MAX_SCALED <= r.2 <= RATE_ERROR_MAX_SCALED,
        -tdiv(limit as int, OUTPUT_SCALING as int) <= r.0 <= tdiv(
            limit as int,
            OUTPUT_SCALING as int,
        ),
{
    let e: i64 = sp - rate;
    let p: i64 = mul_div(k_p, e, SCALE);
    proof {
        lemma_mul_bound(k_p as int, e as int, GAIN_LIMIT_SCALED as int, RATE_ERROR_MAX_SCALED as int);
        lemma_tdiv_bound(k_p as int * e as int, SCALE as int, 28_000_000);
    }
    // Iterm relax factor in [0, SCALE].
    let sp_abs: i64 = if sp >= 0 {
        sp
    } else {
        -sp
    };
    let relax: i64 = if sp_abs >= ITERM_RELAX_THRESHOLD_SCALED {
        0
    } else {
        let q: i64 = div_trunc(SCALE * sp_abs, ITERM_RELAX_THRESHOLD_SCALED);
        proof {
            lemma_tdiv_bound(SCALE as int * sp_abs as int, ITERM_RELAX_THRESHOLD_SCALED as int, SCALE as int);
            lemma_tdiv_mag(SCALE as int * sp_abs as int, ITERM_RELAX_THRESHOLD_SCALED as int);
        }
        SCALE - q
    };
    // Integral increment, relax-weighted, then windup handling.
    let per_sec: i64 = mul_div(k_i, e, SCALE);
    proof {
        lemma_mul_bound(k_i as int, e as int, GAIN_LIMIT_SCALED as int, RATE_ERROR_MAX_SCALED as int);
        lemma_tdiv_bound(k_i as int * e as int, SCALE as int, 28_000_000);
    }
    let per_cycle: i64 = mul_div(per_sec, dt, USEC_PER_SEC);
    proof {
        lemma_mul_bound(per_sec as int, dt as int, 28_000_000, MAX_DT_USEC as int);
        lemma_tdiv_bound(per_sec as int * dt as int, USEC_PER_SEC as int, 28_000_000);
    }
    let delta: i64 = mul_div(per_cycle, relax, SCALE);
    proof {
        lemma_mul_bound(per_cycle as int, relax as int, 28_000_000, SCALE as int);
        lemma_tdiv_bound(per_cycle as int * relax as int, SCALE as int, 28_000_000);
    }
    let est: i64 = p + i0;
    let frozen: bool = (est > ITERM_WINDUP_POINT_SCALED && delta > 0) || (est
        < -ITERM_WINDUP_POINT_SCALED && delta < 0);
    let i1: i64 = if frozen {
        i0
    } else {
        constrain_abs(i0 + delta, ITERM_LIMIT_SCALED)
    };
    // Clamped error and setpoint derivatives.
    let deriv: i64 = constrain_abs(div_trunc((e - e0) * USEC_PER_SEC, dt), DTERM_DERIV_LIMIT_SCALED);
    let sp_deriv: i64 = constrain_abs(
        div_trunc((sp - s0) * USEC_PER_SEC, dt),
        DTERM_DERIV_LIMIT_SCALED,
    );
    // D-min boost factor and the ramped effective derivative gain.
    let gd_abs: i64 = if deriv >= 0 {
        deriv
    } else {
        -deriv
    };
    let sd_abs: i64 = if sp_deriv >= 0 {
        sp_deriv
    } else {
        -sp_deriv
    };
    let fg: i64 = div_trunc(gd_abs * D_MIN_GAIN_FACTOR_NUM, D_MIN_GAIN_FACTOR_DEN);
    let fs_raw: i64 = div_trunc(sd_abs * D_MIN_SETPOINT_GAIN_FACTOR_NUM, D_MIN_SETPOINT_GAIN_FACTOR_DEN);
    proof {
        lemma_tdiv_bound(gd_abs as int * D_MIN_GAIN_FACTOR_NUM as int, D_MIN_GAIN_FACTOR_DEN as int, 8000);
        lemma_tdiv_bound(
            sd_abs as int * D_MIN_SETPOINT_GAIN_FACTOR_NUM as int,
            D_MIN_SETPOINT_GAIN_FACTOR_DEN as int,
            8000,
        );
    }
    let fs: i64 = div_trunc(fs_raw * (100 + D_MIN_ADVANCE), 100);
    proof {
        lemma_tdiv_bound(fs_raw as int * (100 + D_MIN_ADVANCE) as int, 100, 9600);
    }
    let factor: i64 = constrain(if fg >= fs { fg } else { fs }, 0, SCALE);
    let ramp: i64 = D_MIN * SCALE + div_trunc(D_MIN_GAIN * SCALE * factor, SCALE);
    proof {
        lemma_tdiv_bound(D_MIN_GAIN as int * SCALE as int * factor as int, SCALE as int, D_MIN_GAIN as int * SCALE as int);
        lemma_tdiv_mag(D_MIN_GAIN as int * SCALE as int * factor as int, SCALE as int);
    }
    let k_d_eff: i64 = mul_div(k_d, ramp, (D_MIN + D_MIN_GAIN) * SCALE);
    proof {
        lemma_mul_bound(k_d as int, ramp as int, GAIN_LIMIT_SCALED as int, (D_MIN + D_MIN_GAIN) as int * SCALE as int);
        lemma_tdiv_bound(
            k_d as int * ramp as int,
            (D_MIN + D_MIN_GAIN) as int * SCALE as int,
            GAIN_LIMIT_SCALED as int,
        );
    }
    let d: i64 = mul_div(k_d_eff, deriv, SCALE);
    proof {
        lemma_mul_bound(k_d_eff as int, deriv as int, GAIN_LIMIT_SCALED as int, DTERM_DERIV_LIMIT_SCALED as int);
        lemma_tdiv_bound(k_d_eff as int * deriv as int, SCALE as int, 1_000_000_000);
    }
    // Feedforward on the rate-limited setpoint derivative.
    let ff: i64 = if ff_on {
        let limited: i64 = constrain_abs(sp_deriv, FEEDFORWARD_MAX_RATE_LIMIT_SCALED);
        let f: i64 = mul_div(k_f, limited, SCALE);
        proof {
            lemma_mul_bound(
                k_f as int,
                limited as int,
                GAIN_LIMIT_SCALED as int,
                FEEDFORWARD_MAX_RATE_LIMIT_SCALED as int,
            );
            lemma_tdiv_bound(k_f as int * limited as int, SCALE as int, 900_000);
        }
        f
    } else {
        0
    };
    let sum: i64 = p + i1 + d + ff;
    let out: i64 = div_trunc(constrain_abs(sum, limit), OUTPUT_SCALING);
    proof {
        let m = tdiv(limit as int, OUTPUT_SCALING as int);
        assert(m == 500 || m == 400);
        lemma_tdiv_bound(
            clamp_spec(sum as int, -(limit as int), limit as int),
            OUTPUT_SCALING as int,
            m,
        );
    }
    (out, i1, e)
}

// ---------------------------------------------------------------------------
// Dynamic low-pass-filter bookkeeping: the cutoff of the first D-term
// low-pass stage follows a throttle-derived curve, recomputed only under
// the hysteresis conditions checked in `update`.
// ---------------------------------------------------------------------------

/// Quantization of a sanitized throttle into one of
/// `DYN_LPF_THROTTLE_STEPS` buckets; the controller tracks the bucket
/// index, not the raw throttle.
pub open spec fn quantized_throttle(t: int) -> int {
    tdiv(t, THROTTLE_BUCKET_WIDTH as int)
}

/// Throttle-to-cutoff curve in `[0, SCALE]`: the throttle fraction plus an
/// expo-weighted hump, `t + t * (1 - t) * expo / 10` in real units.
pub open spec fn dyn_lpf_curve(t: int) -> int {
    tdiv(tdiv(t * ((SCALE as int) - t), SCALE as int) * (DYN_LPF_CURVE_EXPO as int), 10) + t
}

/// Cutoff of the first D-term low-pass stage for a sanitized throttle,
/// fixed-point Hz: ramps from `DTERM_LPF1_DYN_MIN_HZ` to
/// `DTERM_LPF1_DYN_MAX_HZ` along the curve.
pub open spec fn dyn_lpf_cutoff_spec(t: int) -> int {
    DTERM_LPF1_DYN_MIN_HZ * SCALE + (DTERM_LPF1_DYN_MAX_HZ - DTERM_LPF1_DYN_MIN_HZ)
        * dyn_lpf_curve(t)
}

/// Computes the dynamic cutoff for a sanitized throttle.
fn compute_dyn_lpf_cutoff(t: i64) -> (c: i64)
    requires
        0 <= t <= SCALE,
    ensures
        c == dyn_lpf_cutoff_spec(t as int),
        DTERM_LPF1_DYN_MIN_HZ * SCALE <= c <= DTERM_LPF1_DYN_MAX_HZ * SCALE,
{
    proof {
        assert(0 <= t * (SCALE - t) <= (SCALE as int) * ((SCALE as int) - t)) by (nonlinear_arith)
            requires
                0 <= t <= SCALE,
        ;
    }
    let inner: i64 = div_trunc(t * (SCALE - t), SCALE);
    proof {
        lemma_tdiv_mag(t as int * ((SCALE as int) - t), SCALE as int);
        lemma_multiply_divide_le(t as int * ((SCALE as int) - t), SCALE as int, (SCALE as int) - t);
    }
    let part: i64 = div_trunc(inner * DYN_LPF_CURVE_EXPO, 10);
    proof {
        lemma_tdiv_mag(inner as int * (DYN_LPF_CURVE_EXPO as int), 10);
        lemma_multiply_divide_le(inner as int * (DYN_LPF_CURVE_EXPO as int), 10, (SCALE as int) - t);
    }
    let curve: i64 = part + t;
    proof {
        assert(0 <= curve <= SCALE);
    }
    let span: i64 = DTERM_LPF1_DYN_MAX_HZ - DTERM_LPF1_DYN_MIN_HZ;
    let c: i64 = DTERM_LPF1_DYN_MIN_HZ * SCALE + span * curve;
    c
}

// ---------------------------------------------------------------------------
// The controller.
// ---------------------------------------------------------------------------

/// Angle/rate controller state: rate-loop gains and a level gain, the
/// dynamic-filter bookkeeping, the feedforward initialization flag, and
/// per-axis integral accumulators and rate-error / setpoint history.
#[derive(Clone, Copy, Debug, PartialEq, Eq, Structural)]
pub struct AnglePid {
    pub k_rate_p: i64,
    pub k_rate_i: i64,
    pub k_rate_d: i64,
    pub k_rate_f: i64,
    pub k_level_p: i64,
    pub dyn_lpf_previous_quantized_throttle: i64,
    pub dyn_lpf_elapsed_usec: i64,
    pub dyn_lpf_cutoff: i64,
    pub feedforward_lpf_initialized: bool,
    pub sum_roll: i64,
    pub sum_pitch: i64,
    pub sum_yaw: i64,
    pub prev_error_roll: i64,
    pub prev_error_pitch: i64,
    pub prev_error_yaw: i64,
    pub prev_setpoint_roll: i64,
    pub prev_setpoint_pitch: i64,
    pub prev_setpoint_yaw: i64,
}

impl AnglePid {
    /// Well-formedness: gains within the accepted range, accumulators and
    /// history within the bounds every update maintains.
    pub open spec fn wf(self) -> bool {
        &&& 0 <= self.k_rate_p <= GAIN_LIMIT_SCALED
        &&& 0 <= self.k_rate_i <= GAIN_LIMIT_SCALED
        &&& 0 <= self.k_rate_d <= GAIN_LIMIT_SCALED
        &&& 0 <= self.k_rate_f <= GAIN_LIMIT_SCALED
        &&& 0 <= self.k_level_p <= GAIN_LIMIT_SCALED
        &&& -ITERM_LIMIT_SCALED <= self.sum_roll <= ITERM_LIMIT_SCALED
        &&& -ITERM_LIMIT_SCALED <= self.sum_pitch <= ITERM_LIMIT_SCALED
        &&& -ITERM_LIMIT_SCALED <= self.sum_yaw <= ITERM_LIMIT_SCALED
        &&& -RATE_ERROR_MAX_SCALED <= self.prev_error_roll <= RATE_ERROR_MAX_SCALED
        &&& -RATE_ERROR_MAX_SCALED <= self.prev_error_pitch <= RATE_ERROR_MAX_SCALED
        &&& -RATE_ERROR_MAX_SCALED <= self.prev_error_yaw <= RATE_ERROR_MAX_SCALED
        &&& -SETPOINT_MAX_SCALED <= self.prev_setpoint_roll <= SETPOINT_MAX_SCALED
        &&& -SETPOINT_MAX_SCALED <= self.prev_setpoint_pitch <= SETPOINT_MAX_SCALED
        &&& -SETPOINT_MAX_SCALED <= self.prev_setpoint_yaw <= SETPOINT_MAX_SCALED
        &&& 0 <= self.dyn_lpf_previous_quantized_throttle <= DYN_LPF_THROTTLE_STEPS
        &&& 0 <= self.dyn_lpf_elapsed_usec <= DYN_LPF_THROTTLE_UPDATE_DELAY_US
        &&& DTERM_LPF1_DYN_MIN_HZ * SCALE <= self.dyn_lpf_cutoff <= DTERM_LPF1_DYN_MAX_HZ * SCALE
    }

    /// The two controllers' gains agree.
    pub open spec fn gains_eq(self, other: AnglePid) -> bool {
        &&& self.k_rate_p == other.k_rate_p
        &&& self.k_rate_i == other.k_rate_i
        &&& self.k_rate_d == other.k_rate_d
        &&& self.k_rate_f == other.k_rate_f
        &&& self.k_level_p == other.k_level_p
    }

    /// Rate setpoint of the roll axis for the given inputs.
    pub open spec fn roll_setpoint(self, demands: Demands, vstate: VehicleState) -> int {
        level_setpoint(
            self.k_level_p as int,
            san_demand(demands.roll as int),
            san_angle(vstate.phi as int),
        )
    }

    /// Rate setpoint of the pitch axis for the given inputs.
    pub open spec fn pitch_setpoint(self, demands: Demands, vstate: VehicleState) -> int {
        level_setpoint(
            self.k_level_p as int,
            san_demand(demands.pitch as int),
            san_angle(vstate.theta as int),
        )
    }

    /// Whether this cycle recomputes the dynamic-filter cutoff: the
    /// quantized throttle moved by at least one bucket and the update
    /// delay has elapsed.
    pub open spec fn dyn_lpf_recompute(self, t: int, dt: int) -> bool {
        &&& quantized_throttle(t) != self.dyn_lpf_previous_quantized_throttle
        &&& self.dyn_lpf_elapsed_usec + dt >= DYN_LPF_THROTTLE_UPDATE_DELAY_US
    }

    /// One control cycle as a mathematical transition: the state after the
    /// cycle and the corrected demand vector.  With `reset` asserted the
    /// state re-baselines to the current inputs and the demands pass
    /// through, clamped to the output bounds; otherwise each axis runs one
    /// cycle of the rate PID on its level-blended setpoint.
    pub open spec fn step(self, d_usec: int, demands: Demands, vstate: VehicleState, reset: bool) -> (
        AnglePid,
        Demands,
    ) {
        let dt = san_dt(d_usec);
        let t = san_throttle(demands.throttle as int);
        if reset {
            (
                AnglePid {
                    k_rate_p: self.k_rate_p,
                    k_rate_i: self.k_rate_i,
                    k_rate_d: self.k_rate_d,
                    k_rate_f: self.k_rate_f,
                    k_level_p: self.k_level_p,
                    dyn_lpf_previous_quantized_throttle: quantized_throttle(t) as i64,
                    dyn_lpf_elapsed_usec: 0,
                    dyn_lpf_cutoff: dyn_lpf_cutoff_spec(t) as i64,
                    feedforward_lpf_initialized: false,
                    sum_roll: 0,
                    sum_pitch: 0,
                    sum_yaw: 0,
                    prev_error_roll: 0,
                    prev_error_pitch: 0,
                    prev_error_yaw: 0,
                    prev_setpoint_roll: 0,
                    prev_setpoint_pitch: 0,
                    prev_setpoint_yaw: 0,
                },
                Demands {
                    throttle: t as i64,
                    roll: clamp_spec(
                        demands.roll as int,
                        -(OUTPUT_LIMIT as int),
                        OUTPUT_LIMIT as int,
                    ) as i64,
                    pitch: clamp_spec(
                        demands.pitch as int,
                        -(OUTPUT_LIMIT as int),
                        OUTPUT_LIMIT as int,
                    ) as i64,
                    yaw: clamp_spec(
                        demands.yaw as int,
                        -(OUTPUT_LIMIT_YAW as int),
                        OUTPUT_LIMIT_YAW as int,
                    ) as i64,
                },
            )
        } else {
            let rsp = self.roll_setpoint(demands, vstate);
            let psp = self.pitch_setpoint(demands, vstate);
            let ysp = yaw_setpoint(san_demand(demands.yaw as int));
            let rrate = san_rate(vstate.dphi as int);
            let prate = san_rate(vstate.dtheta as int);
            let yrate = san_rate(vstate.dpsi as int);
            let kp = self.k_rate_p as int;
            let ki = self.k_rate_i as int;
            let kd = self.k_rate_d as int;
            let kf = self.k_rate_f as int;
            let ff_on = self.feedforward_lpf_initialized;
            let el = if self.dyn_lpf_elapsed_usec + dt >= DYN_LPF_THROTTLE_UPDATE_DELAY_US {
                DYN_LPF_THROTTLE_UPDATE_DELAY_US as int
            } else {
                self.dyn_lpf_elapsed_usec + dt
            };
            let recompute = self.dyn_lpf_recompute(t, dt);
            (
                AnglePid {
                    k_rate_p: self.k_rate_p,
                    k_rate_i: self.k_rate_i,
                    k_rate_d: self.k_rate_d,
                    k_rate_f: self.k_rate_f,
                    k_level_p: self.k_level_p,
                    dyn_lpf_previous_quantized_throttle: if recompute {
                        quantized_throttle(t) as i64
                    } else {
                        self.dyn_lpf_previous_quantized_throttle
                    },
                    dyn_lpf_elapsed_usec: if recompute {
                        0
                    } else {
                        el as i64
                    },
                    dyn_lpf_cutoff: if recompute {
                        dyn_lpf_cutoff_spec(t) as i64
                    } else {
                        self.dyn_lpf_cutoff
                    },
                    feedforward_lpf_initialized: true,
                    sum_roll: next_iterm(kp, ki, rsp, rrate, self.sum_roll as int, dt) as i64,
                    sum_pitch: next_iterm(kp, ki, psp, prate, self.sum_pitch as int, dt) as i64,
                    sum_yaw: next_iterm(kp, ki, ysp, yrate, self.sum_yaw as int, dt) as i64,
                    prev_error_roll: rate_error(rsp, rrate) as i64,
                    prev_error_pitch: rate_error(psp, prate) as i64,
                    prev_error_yaw: rate_error(ysp, yrate) as i64,
                    prev_setpoint_roll: rsp as i64,
                    prev_setpoint_pitch: psp as i64,
                    prev_setpoint_yaw: ysp as i64,
                },
                Demands {
                    throttle: t as i64,
                    roll: axis_output(
                        axis_sum(
                            kp,
                            ki,
                            kd,
                            kf,
                            rsp,
                            rrate,
                            self.sum_roll as int,
                            self.prev_error_roll as int,
                            self.prev_setpoint_roll as int,
                            ff_on,
                            dt,
                        ),
                        LIMIT_SCALED as int,
                    ) as i64,
                    pitch: axis_output(
                        axis_sum(
                            kp,
                            ki,
                            kd,
                            kf,
                            psp,
                            prate,
                            self.sum_pitch as int,
                            self.prev_error_pitch as int,
                            self.prev_setpoint_pitch as int,
                            ff_on,
                            dt,
                        ),
                        LIMIT_SCALED as int,
                    ) as i64,
                    yaw: axis_output(
                        axis_sum(
                            kp,
                            ki,
                            kd,
                            kf,
                            ysp,
                            yrate,
                            self.sum_yaw as int,
                            self.prev_error_yaw as int,
                            self.prev_setpoint_yaw as int,
                            ff_on,
                            dt,
                        ),
                        LIMIT_YAW_SCALED as int,
                    ) as i64,
                },
            )
        }
    }

    /// Constructs a controller from its gains.  Construction fails closed:
    /// a gain outside `[0, GAIN_LIMIT_SCALED]` is rejected rather than
    /// silently producing degenerate control.
    pub fn new(k_rate_p: i64, k_rate_i: i64, k_rate_d: i64, k_rate_f: i64, k_level_p: i64) -> (r:
        Option<AnglePid>)
        ensures
            r is Some <==> {
                &&& 0 <= k_rate_p <= GAIN_LIMIT_SCALED
                &&& 0 <= k_rate_i <= GAIN_LIMIT_SCALED
                &&& 0 <= k_rate_d <= GAIN_LIMIT_SCALED
                &&& 0 <= k_rate_f <= GAIN_LIMIT_SCALED
                &&& 0 <= k_level_p <= GAIN_LIMIT_SCALED
            },
            r matches Some(p) ==> {
                &&& p.wf()
                &&& p.k_rate_p == k_rate_p
                &&& p.k_rate_i == k_rate_i
                &&& p.k_rate_d == k_rate_d
                &&& p.k_rate_f == k_rate_f
                &&& p.k_level_p == k_level_p
                &&& p.sum_roll == 0 && p.sum_pitch == 0 && p.sum_yaw == 0
                &&& p.prev_error_roll == 0 && p.prev_error_pitch == 0 && p.prev_error_yaw == 0
                &&& p.prev_setpoint_roll == 0 && p.prev_setpoint_pitch == 0 && p.prev_setpoint_yaw
                    == 0
                &&& !p.feedforward_lpf_initialized
                &&& p.dyn_lpf_previous_quantized_throttle == 0
                &&& p.dyn_lpf_elapsed_usec == 0
                &&& p.dyn_lpf_cutoff == DTERM_LPF1_DYN_MIN_HZ * SCALE
            },
    {
        if 0 <= k_rate_p && k_rate_p <= GAIN_LIMIT_SCALED && 0 <= k_rate_i && k_rate_i
            <= GAIN_LIMIT_SCALED && 0 <= k_rate_d && k_rate_d <= GAIN_LIMIT_SCALED && 0 <= k_rate_f
            && k_rate_f <= GAIN_LIMIT_SCALED && 0 <= k_level_p && k_level_p <= GAIN_LIMIT_SCALED {
            Some(
                AnglePid {
                    k_rate_p,
                    k_rate_i,
                    k_rate_d,
                    k_rate_f,
                    k_level_p,
                    dyn_lpf_previous_quantized_throttle: 0,
                    dyn_lpf_elapsed_usec: 0,
                    dyn_lpf_cutoff: DTERM_LPF1_DYN_MIN_HZ * SCALE,
                    feedforward_lpf_initialized: false,
                    sum_roll: 0,
                    sum_pitch: 0,
                    sum_yaw: 0,
                    prev_error_roll: 0,
                    prev_error_pitch: 0,
                    prev_error_yaw: 0,
                    prev_setpoint_roll: 0,
                    prev_setpoint_pitch: 0,
                    prev_setpoint_yaw: 0,
                },
            )
        } else {
            None
        }
    }

    /// One control cycle: consumes the elapsed time, current demands,
    /// vehicle state and the reset flag; corrects the demand vector and
    /// advances the owned state, exactly as [`Self::step`] states.  Output
    /// channels never leave their documented bounds, and each integral
    /// accumulator stays within `ITERM_LIMIT`.
    pub fn update(
        &mut self,
        d_usec: u32,
        demands: &Demands,
        vstate: &VehicleState,
        reset: bool,
    ) -> (r: Demands)
        requires
            old(self).wf(),
        ensures
            final(self).wf(),
            (*final(self), r) == old(self).step(d_usec as int, *demands, *vstate, reset),
            old(self).gains_eq(*final(self)),
            0 <= r.throttle <= SCALE,
            -OUTPUT_LIMIT <= r.roll <= OUTPUT_LIMIT,
            -OUTPUT_LIMIT <= r.pitch <= OUTPUT_LIMIT,
            -OUTPUT_LIMIT_YAW <= r.yaw <= OUTPUT_LIMIT_YAW,
            -ITERM_LIMIT_SCALED <= final(self).sum_roll <= ITERM_LIMIT_SCALED,
            -ITERM_LIMIT_SCALED <= final(self).sum_pitch <= ITERM_LIMIT_SCALED,
            -ITERM_LIMIT_SCALED <= final(self).sum_yaw <= ITERM_LIMIT_SCALED,
            !reset && (quantized_throttle(san_throttle(demands.throttle as int)) == old(
                self,
            ).dyn_lpf_previous_quantized_throttle || old(self).dyn_lpf_elapsed_usec + san_dt(
                d_usec as int,
            ) < DYN_LPF_THROTTLE_UPDATE_DELAY_US) ==> final(self).dyn_lpf_cutoff == old(
                self,
            ).dyn_lpf_cutoff,
    {
        let dt: i64 = constrain(d_usec as i64, MIN_DT_USEC, MAX_DT_USEC);
        let t: i64 = constrain(demands.throttle, 0, SCALE);
        let q: i64 = div_trunc(t, THROTTLE_BUCKET_WIDTH);
        proof {
            lemma_tdiv_bound(t as int, THROTTLE_BUCKET_WIDTH as int, DYN_LPF_THROTTLE_STEPS as int);
            lemma_tdiv_mag(t as int, THROTTLE_BUCKET_WIDTH as int);
        }
        if reset {
            self.dyn_lpf_previous_quantized_throttle = q;
            self.dyn_lpf_elapsed_usec = 0;
            self.dyn_lpf_cutoff = compute_dyn_lpf_cutoff(t);
            self.feedforward_lpf_initialized = false;
            self.sum_roll = 0;
            self.sum_pitch = 0;
            self.sum_yaw = 0;
            self.prev_error_roll = 0;
            self.prev_error_pitch = 0;
            self.prev_error_yaw = 0;
            self.prev_setpoint_roll = 0;
            self.prev_setpoint_pitch = 0;
            self.prev_setpoint_yaw = 0;
            return Demands {
                throttle: t,
                roll: constrain_abs(demands.roll, OUTPUT_LIMIT),
                pitch: constrain_abs(demands.pitch, OUTPUT_LIMIT),
                yaw: constrain_abs(demands.yaw, OUTPUT_LIMIT_YAW),
            };
        }
        // Sanitized inputs.
        let rd: i64 = constrain_abs(demands.roll, MAX_DEMAND_SCALED);
        let pd: i64 = constrain_abs(demands.pitch, MAX_DEMAND_SCALED);
        let yd: i64 = constrain_abs(demands.yaw, MAX_DEMAND_SCALED);
        let phi: i64 = constrain_abs(vstate.phi, MAX_ANGLE_SCALED);
        let theta: i64 = constrain_abs(vstate.theta, MAX_ANGLE_SCALED);
        let dphi: i64 = constrain_abs(vstate.dphi, MAX_RATE_SCALED);
        let dtheta: i64 = constrain_abs(vstate.dtheta, MAX_RATE_SCALED);
        let dpsi: i64 = constrain_abs(vstate.dpsi, MAX_RATE_SCALED);
        // Level-blended rate setpoints.
        let rsp: i64 = level_sp(self.k_level_p, rd, phi);
        let psp: i64 = level_sp(self.k_level_p, pd, theta);
        let ysp: i64 = yaw_sp(yd);
        // One rate-PID cycle per axis.
        let ff_on: bool = self.feedforward_lpf_initialized;
        let (ro, ri, re) = update_axis(
            self.k_rate_p,
            self.k_rate_i,
            self.k_rate_d,
            self.k_rate_f,
            rsp,
            dphi,
            self.sum_roll,
            self.prev_error_roll,
            self.prev_setpoint_roll,
            ff_on,
            dt,
            LIMIT_SCALED,
        );
        let (po, pi, pe) = update_axis(
            self.k_rate_p,
            self.k_rate_i,
            self.k_rate_d,
            self.k_rate_f,
            psp,
            dtheta,
            self.sum_pitch,
            self.prev_error_pitch,
            self.prev_setpoint_pitch,
            ff_on,
            dt,
            LIMIT_SCALED,
        );
        let (yo, yi, ye) = update_axis(
            self.k_rate_p,
            self.k_rate_i,
            self.k_rate_d,
            self.k_rate_f,
            ysp,
            dpsi,
            self.sum_yaw,
            self.prev_error_yaw,
            self.prev_setpoint_yaw,
            ff_on,
            dt,
            LIMIT_YAW_SCALED,
        );
        // Dynamic-filter hysteresis: recompute the cached cutoff only when
        // the quantized throttle moved a full bucket and the delay elapsed.
        let el_raw: i64 = self.dyn_lpf_elapsed_usec + dt;
        let el: i64 = if el_raw >= DYN_LPF_THROTTLE_UPDATE_DELAY_US {
            DYN_LPF_THROTTLE_UPDATE_DELAY_US
        } else {
            el_raw
        };
        if q != self.dyn_lpf_previous_quantized_throttle && el_raw
            >= DYN_LPF_THROTTLE_UPDATE_DELAY_US {
            self.dyn_lpf_cutoff = compute_dyn_lpf_cutoff(t);
            self.dyn_lpf_previous_quantized_throttle = q;
            self.dyn_lpf_elapsed_usec = 0;
        } else {
            self.dyn_lpf_elapsed_usec = el;
        }
        self.feedforward_lpf_initialized = true;
        self.sum_roll = ri;
        self.sum_pitch = pi;
        self.sum_yaw = yi;
        self.prev_error_roll = re;
        self.prev_error_pitch = pe;
        self.prev_error_yaw = ye;
        self.prev_setpoint_roll = rsp;
        self.prev_setpoint_pitch = psp;
        self.prev_setpoint_yaw = ysp;
        proof {
            let m = tdiv(LIMIT_SCALED as int, OUTPUT_SCALING as int);
            let my = tdiv(LIMIT_YAW_SCALED as int, OUTPUT_SCALING as int);
            assert(m == 500 && my == 400);
        }
        Demands { throttle: t, roll: ro, pitch: po, yaw: yo }
    }
}

/// At zero error the controller is at rest: when the vehicle state
/// matches the commanded setpoint on every axis and the accumulators and
/// history are clean, a cycle leaves every roll/pitch/yaw output at zero
/// and the accumulators and history clean, so the output stays zero for
/// as long as the error does.
pub proof fn lemma_zero_error_rest(
    s: AnglePid,
    d_usec: int,
    demands: Demands,
    vstate: VehicleState,
)
    requires
        s.wf(),
        s.sum_roll == 0 && s.sum_pitch == 0 && s.sum_yaw == 0,
        s.prev_error_roll == 0 && s.prev_error_pitch == 0 && s.prev_error_yaw == 0,
        s.prev_setpoint_roll == 0 && s.prev_setpoint_pitch == 0 && s.prev_setpoint_yaw == 0,
        demands.roll == 0 && demands.pitch == 0 && demands.yaw == 0,
        vstate.phi == 0 && vstate.dphi == 0,
        vstate.theta == 0 && vstate.dtheta == 0,
        vstate.dpsi == 0,
    ensures
        ({
            let (s2, out) = s.step(d_usec, demands, vstate, false);
            &&& out.roll == 0 && out.pitch == 0 && out.yaw == 0
            &&& s2.sum_roll == 0 && s2.sum_pitch == 0 && s2.sum_yaw == 0
            &&& s2.prev_error_roll == 0 && s2.prev_error_pitch == 0 && s2.prev_error_yaw == 0
            &&& s2.prev_setpoint_roll == 0 && s2.prev_setpoint_pitch == 0 && s2.prev_setpoint_yaw
                == 0
        }),
{
    let dt = san_dt(d_usec);
    lemma_tdiv_mag(0, dt);
    lemma_tdiv_mag(0, SCALE as int);
    lemma_tdiv_mag(0, USEC_PER_SEC as int);
    lemma_tdiv_mag(0, ITERM_RELAX_THRESHOLD_SCALED as int);
    lemma_tdiv_mag(0, D_MIN_GAIN_FACTOR_DEN as int);
    lemma_tdiv_mag(0, D_MIN_SETPOINT_GAIN_FACTOR_DEN as int);
    lemma_tdiv_mag(0, 100);
    lemma_tdiv_mag(0, 10);
    assert(tdiv(0, SCALE as int) == 0);
    assert(0 * (LEVEL_ANGLE_LIMIT_SCALED as int) == 0);
    assert(clamp_spec(0, -(LEVEL_ANGLE_LIMIT_SCALED as int), LEVEL_ANGLE_LIMIT_SCALED as int)
        == 0);
    assert((s.k_level_p as int) * 0 == 0);
    assert(level_setpoint(s.k_level_p as int, 0, 0) == 0);
    assert(yaw_setpoint(0) == 0);
    assert(rate_error(0, 0) == 0);
    assert(relax_factor(0) == SCALE);
    assert(p_term(s.k_rate_p as int, 0) == 0);
    let per_sec = tdiv((s.k_rate_i as int) * rate_error(0, 0), SCALE as int);
    lemma_mul_bound(per_sec, dt, 0, MAX_DT_USEC as int);
    let inner = tdiv(per_sec * dt, USEC_PER_SEC as int);
    lemma_mul_bound(inner, relax_factor(0), 0, SCALE as int);
    assert(iterm_delta(s.k_rate_i as int, 0, 0, dt) == 0);
    assert(signal_deriv(0, 0, dt) == 0);
    assert(next_iterm(s.k_rate_p as int, s.k_rate_i as int, 0, 0, 0, dt) == 0);
    let limited = clamp_spec(
        signal_deriv(0, 0, dt),
        -(FEEDFORWARD_MAX_RATE_LIMIT_SCALED as int),
        FEEDFORWARD_MAX_RATE_LIMIT_SCALED as int,
    );
    lemma_mul_bound(s.k_rate_f as int, limited, GAIN_LIMIT_SCALED as int, 0);
    assert(ff_term(s.k_rate_f as int, 0, 0, dt, s.feedforward_lpf_initialized) == 0);
    let ramp = d_gain_ramp(d_min_factor(0, 0));
    assert(d_min_factor(0, 0) == 0);
    assert(ramp == D_MIN * SCALE);
    assert(0 <= (s.k_rate_d as int) * ramp <= 300_000_000) by (nonlinear_arith)
        requires
            0 <= s.k_rate_d as int <= 10_000,
            ramp == 30_000,
    ;
    lemma_tdiv_mag((s.k_rate_d as int) * ramp, (D_MIN + D_MIN_GAIN) as int * (SCALE as int));
    let k_eff = tdiv((s.k_rate_d as int) * ramp, (D_MIN + D_MIN_GAIN) as int * (SCALE as int));
    lemma_mul_bound(k_eff, signal_deriv(0, 0, dt), 300_000_000, 0);
    assert(d_term(s.k_rate_d as int, 0, 0, 0, 0, dt) == 0);
    assert(axis_sum(
        s.k_rate_p as int,
        s.k_rate_i as int,
        s.k_rate_d as int,
        s.k_rate_f as int,
        0,
        0,
        0,
        0,
        0,
        s.feedforward_lpf_initialized,
        dt,
    ) == 0);
}

/// Reset is a true re-baseline, not a partial clear: with `reset`
/// asserted, the output of the cycle and the entire state after it are
/// determined by the controller's gains and the inputs of that cycle
/// alone — two controllers with equal gains agree in both, whatever each
/// accumulated before.
pub proof fn lemma_reset_rebaseline(
    s1: AnglePid,
    s2: AnglePid,
    d_usec: int,
    demands: Demands,
    vstate: VehicleState,
)
    requires
        s1.gains_eq(s2),
    ensures
        s1.step(d_usec, demands, vstate, true) == s2.step(d_usec, demands, vstate, true),
{
}

/// Level blending on one axis: the demand commands an angle, and the
/// clamped angle error times the level gain is the inner-loop setpoint.
fn level_sp(k_level_p: i64, demand: i64, angle: i64) -> (sp: i64)
    requires
        0 <= k_level_p <= GAIN_LIMIT_SCALED,
        -MAX_DEMAND_SCALED <= demand <= MAX_DEMAND_SCALED,
        -MAX_ANGLE_SCALED <= angle <= MAX_ANGLE_SCALED,
    ensures
        sp == level_setpoint(k_level_p as int, demand as int, angle as int),
        -SETPOINT_MAX_SCALED <= sp <= SETPOINT_MAX_SCALED,
{
    let commanded: i64 = mul_div(demand, LEVEL_ANGLE_LIMIT_SCALED, SCALE);
    proof {
        lemma_tdiv_bound(
            demand as int * (LEVEL_ANGLE_LIMIT_SCALED as int),
            SCALE as int,
            2 * LEVEL_ANGLE_LIMIT_SCALED as int,
        );
    }
    let err: i64 = constrain_abs(commanded - angle, LEVEL_ANGLE_LIMIT_SCALED);
    let sp: i64 = mul_div(k_level_p, err, SCALE);
    proof {
        lemma_mul_bound(
            k_level_p as int,
            err as int,
            GAIN_LIMIT_SCALED as int,
            LEVEL_ANGLE_LIMIT_SCALED as int,
        );
        lemma_tdiv_bound(k_level_p as int * err as int, SCALE as int, 450_000);
    }
    sp
}

/// The yaw demand commands a rate: full deflection is `LIMIT_YAW` degrees
/// per second.
fn yaw_sp(demand: i64) -> (sp: i64)
    requires
        -MAX_DEMAND_SCALED <= demand <= MAX_DEMAND_SCALED,
    ensures
        sp == yaw_setpoint(demand as int),
        -SETPOINT_MAX_SCALED <= sp <= SETPOINT_MAX_SCALED,
{
    let sp: i64 = mul_div(demand, LIMIT_YAW_SCALED, SCALE);
    proof {
        lemma_tdiv_bound(
            demand as int * (LIMIT_YAW_SCALED as int),
            SCALE as int,
            SETPOINT_MAX_SCALED as int,
        );
    }
    sp
}

} // verus!
