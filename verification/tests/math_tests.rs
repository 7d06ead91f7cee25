use motion_core::math::{
    fix_add, fix_sub, fix_mul, fix_div, fix_neg, fix_abs, fix_half, fix_sqrt, fix_norm, fix_sin,
    fix_cos, fix_atan2, Real, RealAngle, RealRatio, RealSquare, Scalar, HALF_PI_RAW, MAX_RAW,
    PI_RAW, QUARTER_PI_RAW, SCALE, TWO_PI_RAW,
};
use motion_core::units::{Angle, AngularVelocity, Length, Ratio, Time};

#[test]
fn fixed_point_basic_arithmetic() {
    assert_eq!(fix_add(2_500_000, 1_500_000), 4_000_000);
    assert_eq!(fix_sub(2_500_000, 4_000_000), -1_500_000);
    assert_eq!(fix_mul(2_000_000, 3_000_000), 6_000_000);
    assert_eq!(fix_mul(-2_000_000, 3_000_000), -6_000_000);
    assert_eq!(fix_div(6_000_000, 3_000_000), 2_000_000);
    assert_eq!(fix_div(-6_000_000, 3_000_000), -2_000_000);
    assert_eq!(fix_neg(7), -7);
    assert_eq!(fix_abs(-7), 7);
    assert_eq!(fix_half(-9), -4);
    assert_eq!(fix_half(9), 4);
}

#[test]
fn fixed_point_truncates_toward_zero() {
    // 1.5 * 1.5 = 2.25; -1.5 * 1.5 truncates toward zero, not downward
    assert_eq!(fix_mul(1_500_000, 1_500_000), 2_250_000);
    assert_eq!(fix_mul(-1_500_000, 1_500_000), -2_250_000);
    assert_eq!(fix_div(1, 3_000_000), 0);
    assert_eq!(fix_div(-1, 3_000_000), 0);
}

#[test]
fn fixed_point_saturates() {
    assert_eq!(fix_add(MAX_RAW, MAX_RAW), MAX_RAW);
    assert_eq!(fix_sub(-MAX_RAW, MAX_RAW), -MAX_RAW);
    assert_eq!(fix_mul(MAX_RAW, MAX_RAW), MAX_RAW);
    assert_eq!(fix_neg(i64::MIN), MAX_RAW);
    assert_eq!(fix_abs(i64::MIN), MAX_RAW);
}

#[test]
fn division_by_zero_is_zero() {
    assert_eq!(fix_div(5_000_000, 0), 0);
    assert_eq!(fix_div(0, 0), 0);
}

#[test]
fn square_root_is_exact_on_squares() {
    assert_eq!(fix_sqrt(4_000_000), 2_000_000);
    assert_eq!(fix_sqrt(9_000_000), 3_000_000);
    assert_eq!(fix_sqrt(0), 0);
    assert_eq!(fix_sqrt(-5), 0);
    assert_eq!(fix_sqrt(1_000_000), 1_000_000);
    // 2.25 has the exact root 1.5
    assert_eq!(fix_sqrt(2_250_000), 1_500_000);
}

#[test]
fn normalization_wraps_into_half_turn() {
    assert_eq!(fix_norm(TWO_PI_RAW + 1000), 1000);
    assert_eq!(fix_norm(-1000), -1000);
    assert_eq!(fix_norm(PI_RAW), PI_RAW);
    assert_eq!(fix_norm(PI_RAW + 1), PI_RAW + 1 - TWO_PI_RAW);
    assert_eq!(fix_norm(10 * TWO_PI_RAW), 0);
    assert_eq!(fix_norm(-10 * TWO_PI_RAW), 0);
}

#[test]
fn sine_and_cosine_exact_points() {
    assert_eq!(fix_sin(0), 0);
    assert_eq!(fix_cos(0), SCALE);
    assert_eq!(fix_sin(PI_RAW), 0);
    assert_eq!(fix_cos(PI_RAW), -SCALE);
    assert_eq!(fix_sin(HALF_PI_RAW), 999_844);
    assert_eq!(fix_sin(-HALF_PI_RAW), -999_844);
    assert_eq!(fix_cos(HALF_PI_RAW), -894);
    // thirty degrees: the sine is exactly one half in micro units
    assert_eq!(fix_sin(523_599), 500_000);
}

#[test]
fn sine_approximation_is_close() {
    // one radian: sin = 0.841471, cos = 0.540302
    let s = fix_sin(1_000_000);
    let c = fix_cos(1_000_000);
    assert!((s - 841_471).abs() < 500, "sin(1) = {}", s);
    assert!((c - 540_302).abs() < 1_000, "cos(1) = {}", c);
}

#[test]
fn atan2_quadrants() {
    assert_eq!(fix_atan2(0, 5_000_000), 0);
    assert_eq!(fix_atan2(0, -5_000_000), PI_RAW);
    assert_eq!(fix_atan2(3_000_000, 0), HALF_PI_RAW);
    assert_eq!(fix_atan2(-3_000_000, 0), -HALF_PI_RAW);
    assert_eq!(fix_atan2(0, 0), 0);
    // the diagonal hits the eighth turn exactly
    assert_eq!(fix_atan2(1_000_000, 1_000_000), QUARTER_PI_RAW);
    assert_eq!(fix_atan2(-1_000_000, 1_000_000), -QUARTER_PI_RAW);
    assert_eq!(fix_atan2(1_000_000, -1_000_000), PI_RAW - QUARTER_PI_RAW);
}

#[test]
fn atan2_approximation_is_close() {
    // atan(1/2) = 0.463648 radians
    let a = fix_atan2(1_000_000, 2_000_000);
    assert!((a - 463_648).abs() < 4_000, "atan2(1, 2) = {}", a);
}

#[test]
fn unit_conversions() {
    assert_eq!(Angle::from_degrees(180_000_000).raw, PI_RAW);
    assert_eq!(Angle::from_degrees(90_000_000).raw, PI_RAW / 2);
    assert_eq!(AngularVelocity::from_rpm(60_000_000).raw, TWO_PI_RAW);
    assert_eq!(Length::from_units(3).raw, 3_000_000);
    assert_eq!(Ratio::from_units(-2).raw, -2_000_000);
    assert_eq!(Time::from_millis(50).raw, 50_000);
}

#[test]
fn trig_through_quantity_types() {
    let third = Angle::from_raw(523_599);
    assert_eq!(third.sin().raw, 500_000);
    assert_eq!(Angle::from_raw(0).cos().raw, SCALE);
    assert_eq!(Ratio::from_units(4).sqrt().raw, 2_000_000);
    assert_eq!(Length::from_units(1).atan2(Length::from_units(1)).raw, QUARTER_PI_RAW);
    assert_eq!(Ratio::from_raw(0).atan().raw, 0);
    // the eighth turn: sine 707107, cosine 707104, tangent just over one
    let eighth = Angle::from_raw(QUARTER_PI_RAW);
    assert_eq!(eighth.sin().raw, 707_107);
    assert_eq!(eighth.cos().raw, 707_104);
    assert_eq!(eighth.tan().raw, 1_000_004);
    assert_eq!(Ratio::from_units(1).asin().raw, HALF_PI_RAW);
    assert_eq!(Ratio::from_units(1).acos().raw, 0);
}

#[test]
fn trig_through_scalar_primitive() {
    assert_eq!(Scalar::from_raw(0).sin().raw, 0);
    assert_eq!(Scalar::from_raw(0).cos().raw, SCALE);
    assert_eq!(Scalar::from_raw(4_000_000).sqrt().raw, 2_000_000);
    assert_eq!(Scalar::from_raw(1_000_000).atan2(Scalar::from_raw(1_000_000)).raw, QUARTER_PI_RAW);
}
