use flightcore::utils::{constrain, constrain_abs, deg2rad, div_trunc, mul_div, DT, SCALE};

#[test]
fn constrain_returns_value_inside_range() {
    assert_eq!(constrain(5, 0, 10), 5);
}

#[test]
fn constrain_clamps_below() {
    assert_eq!(constrain(-5, 0, 10), 0);
}

#[test]
fn constrain_clamps_above() {
    assert_eq!(constrain(15, 0, 10), 10);
}

#[test]
fn constrain_abs_is_symmetric() {
    assert_eq!(constrain_abs(-700, 500), -500);
    assert_eq!(constrain_abs(700, 500), 500);
    assert_eq!(constrain_abs(123, 500), 123);
}

#[test]
fn div_trunc_rounds_toward_zero() {
    assert_eq!(div_trunc(7, 2), 3);
    assert_eq!(div_trunc(-7, 2), -3);
    assert_eq!(div_trunc(0, 9), 0);
}

#[test]
fn mul_div_scales_products() {
    assert_eq!(mul_div(3000, 500, 1000), 1500);
    assert_eq!(mul_div(-3000, 500, 1000), -1500);
    assert_eq!(mul_div(7, 3, 2), 10);
}

#[test]
fn deg2rad_uses_legacy_pi() {
    // 180 degrees is pi radians: 3.1415928 truncates to 3141 fixed-point.
    assert_eq!(deg2rad(180 * SCALE), 3141);
    assert_eq!(deg2rad(90 * SCALE), 1570);
    assert_eq!(deg2rad(-180 * SCALE), -3141);
    assert_eq!(deg2rad(0), 0);
}

#[test]
fn fixed_timestep_constant() {
    assert_eq!(DT, 100);
    assert_eq!(SCALE, 1000);
}
