use flightcore::anglepid::{
    AnglePid, GAIN_LIMIT_SCALED, ITERM_LIMIT_SCALED, OUTPUT_LIMIT, OUTPUT_LIMIT_YAW,
};
use flightcore::{Demands, VehicleState};

fn zero_state() -> VehicleState {
    VehicleState {
        x: 0,
        dx: 0,
        y: 0,
        dy: 0,
        z: 0,
        dz: 0,
        phi: 0,
        dphi: 0,
        theta: 0,
        dtheta: 0,
        psi: 0,
        dpsi: 0,
    }
}

fn demands(throttle: i64, roll: i64, pitch: i64, yaw: i64) -> Demands {
    Demands { throttle, roll, pitch, yaw }
}

#[test]
fn construction_fails_closed_on_bad_gains() {
    assert!(AnglePid::new(-1, 0, 0, 0, 0).is_none());
    assert!(AnglePid::new(0, 0, 0, 0, GAIN_LIMIT_SCALED + 1).is_none());
    assert!(AnglePid::new(0, 0, 0, 0, 0).is_some());
    assert!(AnglePid::new(
        GAIN_LIMIT_SCALED,
        GAIN_LIMIT_SCALED,
        GAIN_LIMIT_SCALED,
        GAIN_LIMIT_SCALED,
        GAIN_LIMIT_SCALED
    )
    .is_some());
}

#[test]
fn reset_with_matching_state_passes_demands_through() {
    // All-zero vehicle state, demands (0.5, 0, 0, 0), elapsed 1000 us,
    // reset asserted: output equals the input demands.
    let mut pid = AnglePid::new(1000, 1000, 1000, 1000, 1000).unwrap();
    let d = demands(500, 0, 0, 0);
    let out = pid.update(1000, &d, &zero_state(), true);
    assert_eq!(out, d);
}

#[test]
fn zero_error_output_stays_zero_over_many_cycles() {
    let mut pid = AnglePid::new(2000, 1500, 1000, 500, 3000).unwrap();
    let d = demands(500, 0, 0, 0);
    let s = zero_state();
    pid.update(1000, &d, &s, true);
    for _ in 0..10 {
        let out = pid.update(1000, &d, &s, false);
        assert_eq!(out, demands(500, 0, 0, 0));
        assert_eq!(pid.sum_roll, 0);
        assert_eq!(pid.sum_pitch, 0);
        assert_eq!(pid.sum_yaw, 0);
    }
}

#[test]
fn level_blended_proportional_roll() {
    // k_rate_p = 1.0, k_level_p = 1.0, other gains zero.  Full roll
    // deflection commands 45 degrees; at zero attitude the setpoint is
    // 45 deg/s, the P term 45.0, and the shaped output 45 fixed-point.
    let mut pid = AnglePid::new(1000, 0, 0, 0, 1000).unwrap();
    let s = zero_state();
    pid.update(1000, &demands(500, 0, 0, 0), &s, true);
    let out = pid.update(1000, &demands(500, 1000, 0, 0), &s, false);
    assert_eq!(out.roll, 45);
    assert_eq!(out.pitch, 0);
    assert_eq!(out.yaw, 0);
    assert_eq!(out.throttle, 500);
    // The same inputs keep the same output on later cycles.
    let out2 = pid.update(1000, &demands(500, 1000, 0, 0), &s, false);
    assert_eq!(out2.roll, 45);
}

#[test]
fn yaw_rate_command_and_output_limit() {
    // Full yaw deflection commands 400 deg/s; with k_rate_p = 1.0 the sum
    // is 400.0 and the shaped output 400.  At double deflection the sum
    // saturates at the yaw limit.
    let mut pid = AnglePid::new(1000, 0, 0, 0, 0).unwrap();
    let s = zero_state();
    pid.update(1000, &demands(500, 0, 0, 0), &s, true);
    let out = pid.update(1000, &demands(500, 0, 0, 1000), &s, false);
    assert_eq!(out.yaw, 400);
    let mut pid2 = AnglePid::new(10000, 0, 0, 0, 0).unwrap();
    pid2.update(1000, &demands(500, 0, 0, 0), &s, true);
    let out2 = pid2.update(1000, &demands(500, 0, 0, 2000), &s, false);
    assert_eq!(out2.yaw, OUTPUT_LIMIT_YAW);
}

#[test]
fn outputs_bounded_under_extreme_inputs() {
    let mut pid = AnglePid::new(10000, 10000, 10000, 10000, 10000).unwrap();
    let mut s = zero_state();
    s.phi = i64::MIN + 1;
    s.theta = i64::MAX;
    s.dphi = i64::MAX;
    s.dtheta = i64::MIN + 1;
    s.dpsi = i64::MAX;
    let d = demands(i64::MAX, i64::MAX, i64::MIN + 1, i64::MAX);
    for reset in [true, false, false, false] {
        let out = pid.update(u32::MAX, &d, &s, reset);
        assert!(out.roll.abs() <= OUTPUT_LIMIT);
        assert!(out.pitch.abs() <= OUTPUT_LIMIT);
        assert!(out.yaw.abs() <= OUTPUT_LIMIT_YAW);
        assert!(out.throttle >= 0 && out.throttle <= 1000);
    }
}

#[test]
fn integral_windup_is_bounded() {
    // k_rate_i = 10.0, small level gain so the setpoint stays under the
    // iterm-relax threshold; a saturated roll demand held for many one-
    // second ticks drives the integral to the limit and no further.
    let mut pid = AnglePid::new(0, 10000, 0, 0, 500).unwrap();
    let s = zero_state();
    pid.update(1000, &demands(500, 0, 0, 0), &s, true);
    for _ in 0..50 {
        pid.update(1_000_000, &demands(500, 2000, 0, 0), &s, false);
        assert!(pid.sum_roll.abs() <= ITERM_LIMIT_SCALED);
    }
    assert_eq!(pid.sum_roll, ITERM_LIMIT_SCALED);
}

#[test]
fn integral_freezes_when_output_saturates() {
    // A huge proportional term saturates the demand estimate beyond the
    // windup point on the same sign as the increment, so the integral is
    // frozen rather than accumulated.
    let mut pid = AnglePid::new(10000, 10000, 0, 0, 500).unwrap();
    let mut s = zero_state();
    s.dphi = -2_000_000;
    pid.update(1000, &demands(500, 0, 0, 0), &zero_state(), true);
    for _ in 0..20 {
        let out = pid.update(1_000_000, &demands(500, 1000, 0, 0), &s, false);
        assert_eq!(pid.sum_roll, 0);
        assert_eq!(out.roll, OUTPUT_LIMIT);
    }
}

#[test]
fn reset_rebaselines_to_fresh_behavior() {
    // A controller with history, updated with reset asserted, behaves
    // from then on exactly like a freshly constructed controller given
    // the same inputs.
    let mut seasoned = AnglePid::new(2000, 3000, 1000, 500, 1500).unwrap();
    let s = zero_state();
    let mut turbulent = zero_state();
    turbulent.phi = 30_000;
    turbulent.dphi = -90_000;
    for i in 0..7 {
        seasoned.update(2000 + i, &demands(700, 800, -300, 200), &turbulent, false);
    }
    let mut fresh = AnglePid::new(2000, 3000, 1000, 500, 1500).unwrap();
    let d = demands(600, 100, -100, 50);
    let out_seasoned = seasoned.update(1000, &d, &s, true);
    let out_fresh = fresh.update(1000, &d, &s, true);
    assert_eq!(out_seasoned, out_fresh);
    assert_eq!(seasoned, fresh);
    for i in 0..5 {
        let a = seasoned.update(1000 + i, &demands(600, 400, 200, -100), &turbulent, false);
        let b = fresh.update(1000 + i, &demands(600, 400, 200, -100), &turbulent, false);
        assert_eq!(a, b);
        assert_eq!(seasoned, fresh);
    }
}

#[test]
fn feedforward_initializes_lazily_and_rate_limits() {
    // k_rate_f = 1.0, k_level_p = 1.0, other gains zero.  The first cycle
    // after a reset contributes no feedforward (the filter initializes
    // lazily); a later setpoint jump contributes, limited to 90 deg/s.
    let mut pid = AnglePid::new(0, 0, 0, 1000, 1000).unwrap();
    let s = zero_state();
    pid.update(1000, &demands(500, 1000, 0, 0), &s, true);
    let out1 = pid.update(1_000_000, &demands(500, 1000, 0, 0), &s, false);
    assert_eq!(out1.roll, 0);
    // Setpoint drops from 45 deg/s to 0 in one millisecond: the raw
    // derivative is far beyond the limit, so the term is -90.0.
    let out2 = pid.update(1000, &demands(500, 0, 0, 0), &s, false);
    assert_eq!(out2.roll, -90);
    // A steady setpoint contributes nothing again.
    let out3 = pid.update(1000, &demands(500, 0, 0, 0), &s, false);
    assert_eq!(out3.roll, 0);
}

#[test]
fn dyn_lpf_cutoff_cached_under_hysteresis() {
    let mut pid = AnglePid::new(1000, 1000, 1000, 1000, 1000).unwrap();
    let s = zero_state();
    // Reset re-baselines the quantized throttle to bucket 50 and the
    // cached cutoff to the curve value at throttle 0.5.
    pid.update(1000, &demands(500, 0, 0, 0), &s, true);
    assert_eq!(pid.dyn_lpf_previous_quantized_throttle, 50);
    assert_eq!(pid.dyn_lpf_cutoff, 121_875);
    // A throttle change smaller than one bucket never recomputes.
    pid.update(10_000, &demands(505, 0, 0, 0), &s, false);
    assert_eq!(pid.dyn_lpf_cutoff, 121_875);
    assert_eq!(pid.dyn_lpf_previous_quantized_throttle, 50);
    // Re-baseline, then a two-bucket change arriving before the update
    // delay has elapsed does not recompute either.
    pid.update(1000, &demands(500, 0, 0, 0), &s, true);
    for _ in 0..4 {
        pid.update(1000, &demands(520, 0, 0, 0), &s, false);
        assert_eq!(pid.dyn_lpf_cutoff, 121_875);
        assert_eq!(pid.dyn_lpf_previous_quantized_throttle, 50);
    }
    // The fifth millisecond reaches the delay: the cutoff moves to the
    // curve value at throttle 0.52 and the bucket re-baselines.
    pid.update(1000, &demands(520, 0, 0, 0), &s, false);
    assert_eq!(pid.dyn_lpf_cutoff, 123_300);
    assert_eq!(pid.dyn_lpf_previous_quantized_throttle, 52);
    assert_eq!(pid.dyn_lpf_elapsed_usec, 0);
}
