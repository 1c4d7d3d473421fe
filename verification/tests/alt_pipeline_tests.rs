use flightcore::altholdpid::{AltHoldPid, ALT_DEADBAND_SCALED, MAX_ALT_SCALED};
use flightcore::anglepid::{AnglePid, GAIN_LIMIT_SCALED, ITERM_LIMIT_SCALED};
use flightcore::pids::{get_demands, run_pids, PidController};
use flightcore::{Demands, VehicleState};

fn state_at_altitude(z: i64) -> VehicleState {
    VehicleState {
        x: 0,
        dx: 0,
        y: 0,
        dy: 0,
        z,
        dz: 0,
        phi: 0,
        dphi: 0,
        theta: 0,
        dtheta: 0,
        psi: 0,
        dpsi: 0,
    }
}

fn demands(throttle: i64, roll: i64, pitch: i64, yaw: i64) -> Demands {
    Demands { throttle, roll, pitch, yaw }
}

#[test]
fn alt_construction_fails_closed() {
    assert!(AltHoldPid::new(-1, 0).is_none());
    assert!(AltHoldPid::new(0, GAIN_LIMIT_SCALED + 1).is_none());
    assert!(AltHoldPid::new(GAIN_LIMIT_SCALED, GAIN_LIMIT_SCALED).is_some());
}

#[test]
fn alt_reset_latches_target_and_clears_state() {
    let mut pid = AltHoldPid::new(1000, 1000).unwrap();
    let out = pid.update(&demands(1500, 7, -8, 9), &state_at_altitude(1500), true);
    assert_eq!(pid.altitude_target, 1500);
    assert_eq!(pid.error_integral, 0);
    assert!(!pid.in_band_prev);
    // Throttle sanitized to the valid range; roll/pitch/yaw untouched.
    assert_eq!(out, demands(1000, 7, -8, 9));
}

#[test]
fn alt_deadband_hysteresis_latches_once_per_entry() {
    let mut pid = AltHoldPid::new(1000, 10000).unwrap();
    // Out of band below the target: PI output overrides the throttle.
    let out = pid.update(&demands(500, 1, 2, 3), &state_at_altitude(-300), false);
    assert_eq!(out.throttle, 300);
    assert_eq!(out.roll, 1);
    assert!(!pid.in_band_prev);
    assert_eq!(pid.altitude_target, 0);
    // Entering the band re-latches the target exactly once.
    pid.update(&demands(500, 0, 0, 0), &state_at_altitude(-100), false);
    assert!(pid.in_band_prev);
    assert_eq!(pid.altitude_target, -100);
    assert_eq!(pid.error_integral, 0);
    // Staying in band keeps the latched target and frozen integral.
    pid.update(&demands(500, 0, 0, 0), &state_at_altitude(-250), false);
    assert!(pid.in_band_prev);
    assert_eq!(pid.altitude_target, -100);
    assert_eq!(pid.error_integral, 0);
    // Leaving the band clears the edge detector; the next entry latches
    // again.
    pid.update(&demands(500, 0, 0, 0), &state_at_altitude(500), false);
    assert!(!pid.in_band_prev);
    assert_eq!(pid.altitude_target, -100);
    pid.update(&demands(500, 0, 0, 0), &state_at_altitude(-50), false);
    assert!(pid.in_band_prev);
    assert_eq!(pid.altitude_target, -50);
}

#[test]
fn alt_in_band_throttle_passes_through() {
    let mut pid = AltHoldPid::new(1000, 1000).unwrap();
    let out = pid.update(
        &demands(700, 0, 0, 0),
        &state_at_altitude(ALT_DEADBAND_SCALED),
        false,
    );
    assert_eq!(out.throttle, 700);
}

#[test]
fn alt_integral_windup_is_bounded() {
    let mut pid = AltHoldPid::new(0, 10000).unwrap();
    for _ in 0..300 {
        pid.update(&demands(500, 0, 0, 0), &state_at_altitude(-2_000_000), false);
        assert!(pid.error_integral.abs() <= ITERM_LIMIT_SCALED);
    }
    assert_eq!(pid.error_integral, ITERM_LIMIT_SCALED);
}

#[test]
fn alt_measured_altitude_is_sanitized() {
    let mut pid = AltHoldPid::new(1000, 1000).unwrap();
    pid.update(&demands(500, 0, 0, 0), &state_at_altitude(i64::MAX), true);
    assert_eq!(pid.altitude_target, MAX_ALT_SCALED);
    let out = pid.update(&demands(500, 0, 0, 0), &state_at_altitude(i64::MIN), false);
    assert!(out.throttle >= 0 && out.throttle <= 1000);
}

#[test]
fn dispatch_routes_to_the_wrapped_controller() {
    let angle = AnglePid::new(1000, 0, 0, 0, 1000).unwrap();
    let alt = AltHoldPid::new(1000, 10000).unwrap();
    let mut as_variant = PidController::AltHoldPid(alt);
    let mut direct = alt;
    let d = demands(500, 1, 2, 3);
    let s = state_at_altitude(-300);
    let via_dispatch = get_demands(&mut as_variant, 1000, &d, &s, false);
    let via_update = direct.update(&d, &s, false);
    assert_eq!(via_dispatch, via_update);
    assert_eq!(as_variant, PidController::AltHoldPid(direct));
    let mut angle_variant = PidController::AnglePid(angle);
    let out = get_demands(&mut angle_variant, 1000, &demands(500, 1000, 0, 0), &s, false);
    assert_eq!(out.roll, 45);
}

#[test]
fn pipeline_threads_demands_in_order() {
    // An angle controller with zero gains leaves roll/pitch/yaw at zero;
    // the altitude controller then overrides the throttle.
    let angle = AnglePid::new(0, 0, 0, 0, 0).unwrap();
    let alt = AltHoldPid::new(1000, 0).unwrap();
    let mut pipeline = vec![
        PidController::AnglePid(angle),
        PidController::AltHoldPid(alt),
    ];
    let d = demands(500, 0, 0, 0);
    let s = state_at_altitude(-300);
    let out = run_pids(&mut pipeline, 1000, &d, &s, false);
    assert_eq!(out, demands(300, 0, 0, 0));
}

#[test]
fn pipeline_matches_sequential_dispatch() {
    let angle = AnglePid::new(2000, 1000, 500, 250, 1500).unwrap();
    let alt = AltHoldPid::new(1000, 10000).unwrap();
    let mut pipeline = vec![
        PidController::AnglePid(angle),
        PidController::AltHoldPid(alt),
    ];
    let mut first = PidController::AnglePid(angle);
    let mut second = PidController::AltHoldPid(alt);
    let d = demands(600, 400, -200, 100);
    let s = state_at_altitude(900);
    let out = run_pids(&mut pipeline, 2500, &d, &s, false);
    let mid = get_demands(&mut first, 2500, &d, &s, false);
    let end = get_demands(&mut second, 2500, &mid, &s, false);
    assert_eq!(out, end);
    assert_eq!(pipeline[0], first);
    assert_eq!(pipeline[1], second);
}

#[test]
fn empty_pipeline_returns_demands_unchanged() {
    let mut pipeline: Vec<PidController> = vec![];
    let d = demands(500, 1, 2, 3);
    let out = run_pids(&mut pipeline, 1000, &d, &state_at_altitude(0), false);
    assert_eq!(out, d);
}
