use motion_core::pid::{PositionController, VelocityController};
use motion_core::units::{Angle, AngularVelocity, Ratio, Time};
use motion_core::Gains;

fn gains(kp: i64, ki: i64, kd: i64) -> Gains {
    Gains {
        proportional: Ratio::from_raw(kp),
        integral: Ratio::from_raw(ki),
        derivative: Ratio::from_raw(kd),
    }
}

#[test]
fn proportional_only_output_is_scaled_error() {
    // gain two, error ten radians: the command is exactly twenty
    let mut c = PositionController::new(
        Angle::from_units(10),
        gains(2_000_000, 0, 0),
        Angle::from_raw(10_000),
        Time::from_raw(0),
    );
    let out = c.cycle(Angle::from_raw(0), Time::from_millis(50));
    assert_eq!(out.raw, 20_000_000);
}

#[test]
fn position_channels_accumulate_exactly() {
    // unit gains, constant error of one radian, one-second cycles:
    // the integral channel grows by one unit per cycle, the derivative
    // stays zero on a constant error
    let mut c = PositionController::new(
        Angle::from_units(10),
        gains(1_000_000, 1_000_000, 1_000_000),
        Angle::from_raw(10_000),
        Time::from_raw(0),
    );
    let first = c.cycle(Angle::from_units(9), Time::from_raw(1_000_000));
    assert_eq!(first.raw, 2_000_000);
    let second = c.cycle(Angle::from_units(9), Time::from_raw(2_000_000));
    assert_eq!(second.raw, 3_000_000);
}

#[test]
fn zero_elapsed_time_skips_integration_and_differentiation() {
    let mut c = PositionController::new(
        Angle::from_units(10),
        gains(1_000_000, 1_000_000, 1_000_000),
        Angle::from_raw(10_000),
        Time::from_raw(0),
    );
    // two cycles at the same instant: only the proportional channel acts
    let first = c.cycle(Angle::from_units(9), Time::from_raw(0));
    assert_eq!(first.raw, 1_000_000);
    let second = c.cycle(Angle::from_units(9), Time::from_raw(0));
    assert_eq!(second.raw, 1_000_000);
    assert_eq!(c.integral, 0);
}

#[test]
fn position_controller_converges_on_first_order_plant() {
    // gain ten, fifty-millisecond cycles: the simulated plant halves its
    // error every cycle and settles inside the threshold
    let mut c = PositionController::new(
        Angle::from_units(1),
        gains(10_000_000, 0, 0),
        Angle::from_raw(10_000),
        Time::from_raw(0),
    );
    let mut current: i64 = 0;
    let mut t: i64 = 0;
    let mut settled = false;
    for _ in 0..40 {
        if c.is_complete(Angle::from_raw(current)) {
            settled = true;
            break;
        }
        t += 50_000;
        let out = c.cycle(Angle::from_raw(current), Time::from_raw(t));
        // the command's sign always matches the error's sign
        if current < 1_000_000 {
            assert!(out.raw > 0);
        }
        // first-order plant: the velocity command acts for one cycle
        current += out.raw / 20;
    }
    assert!(settled);
    assert!((current - 1_000_000).abs() <= 10_000);
}

#[test]
fn completion_is_threshold_comparison() {
    let c = PositionController::new(
        Angle::from_units(1),
        gains(1_000_000, 0, 0),
        Angle::from_raw(10_000),
        Time::from_raw(0),
    );
    assert!(c.is_complete(Angle::from_raw(995_000)));
    assert!(c.is_complete(Angle::from_raw(1_005_000)));
    assert!(!c.is_complete(Angle::from_raw(980_000)));
    assert!(!c.is_complete(Angle::from_raw(0)));
}

#[test]
fn position_set_target_retargets() {
    let mut c = PositionController::new(
        Angle::from_units(1),
        gains(1_000_000, 0, 0),
        Angle::from_raw(0),
        Time::from_raw(0),
    );
    c.set_target(Angle::from_units(2));
    assert_eq!(c.target.raw, 2_000_000);
    let out = c.cycle(Angle::from_raw(0), Time::from_raw(0));
    assert_eq!(out.raw, 2_000_000);
}

#[test]
fn velocity_cycle_is_bumpless_on_steady_input() {
    // a second cycle with the same reading and no elapsed time leaves the
    // accumulated output untouched; with elapsed time it moves by the
    // integral channel alone
    let mut c = VelocityController::new(
        AngularVelocity::from_raw(500_000),
        gains(1_000_000, 1_000_000, 1_000_000),
        AngularVelocity::from_raw(10_000),
        Time::from_raw(0),
    );
    let first = c.cycle(AngularVelocity::from_raw(300_000), Time::from_raw(1_000));
    // error 0.2, one-millisecond step: integral channel only
    assert_eq!(first.raw, 200);
    let same_instant = c.cycle(AngularVelocity::from_raw(300_000), Time::from_raw(1_000));
    assert_eq!(same_instant.raw, 200);
    let later = c.cycle(AngularVelocity::from_raw(300_000), Time::from_raw(2_000));
    assert_eq!(later.raw, 400);
}

#[test]
fn velocity_output_accumulates_across_cycles() {
    let mut c = VelocityController::new(
        AngularVelocity::from_units(1),
        gains(0, 1_000_000, 0),
        AngularVelocity::from_raw(10_000),
        Time::from_raw(0),
    );
    // constant unit error, one-second cycles: the output climbs by the
    // integral channel, one unit per cycle
    let first = c.cycle(AngularVelocity::from_raw(0), Time::from_raw(1_000_000));
    assert_eq!(first.raw, 1_000_000);
    let second = c.cycle(AngularVelocity::from_raw(0), Time::from_raw(2_000_000));
    assert_eq!(second.raw, 2_000_000);
}

#[test]
fn at_speed_is_threshold_comparison() {
    let c = VelocityController::new(
        AngularVelocity::from_units(1),
        gains(1_000_000, 0, 0),
        AngularVelocity::from_raw(50_000),
        Time::from_raw(0),
    );
    assert!(c.is_at_speed(AngularVelocity::from_raw(960_000)));
    assert!(c.is_at_speed(AngularVelocity::from_raw(1_040_000)));
    assert!(!c.is_at_speed(AngularVelocity::from_raw(900_000)));
}

#[test]
fn velocity_set_target_retargets() {
    let mut c = VelocityController::new(
        AngularVelocity::from_raw(0),
        gains(1_000_000, 0, 0),
        AngularVelocity::from_raw(10_000),
        Time::from_raw(0),
    );
    c.set_target(AngularVelocity::from_units(2));
    assert_eq!(c.target.raw, 2_000_000);
}
