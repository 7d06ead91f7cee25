use motion_core::tank_drive::{TankDrive, TankMotionStep};
use motion_core::units::{Angle, AngularVelocity, ElectricPotential, Length, Ratio, Time};
use motion_core::x_drive::XDrive;
use motion_core::Gains;

fn gains(kp: i64, ki: i64, kd: i64) -> Gains {
    Gains {
        proportional: Ratio::from_raw(kp),
        integral: Ratio::from_raw(ki),
        derivative: Ratio::from_raw(kd),
    }
}

fn tank() -> TankDrive {
    TankDrive {
        drive_ratio: Ratio::from_units(1),
        wheel_diameter: Length::from_units(2),
        track_width: Length::from_units(4),
        distance_gains: gains(1_000_000, 0, 0),
        turn_gains: gains(1_000_000, 0, 0),
        left_velocity_gains: gains(1_000_000, 1_000_000, 0),
        right_velocity_gains: gains(1_000_000, 1_000_000, 0),
        position_threshold: Angle::from_raw(10_000),
        velocity_threshold: AngularVelocity::from_raw(10_000),
    }
}

#[test]
fn x_drive_pure_strafe_mapping() {
    let drive = XDrive::new(
        Ratio::from_units(1),
        Length::from_units(2),
        Length::from_units(4),
    );
    let r = drive.drive(Ratio::from_raw(500_000), Ratio::from_raw(0), Ratio::from_raw(0));
    assert_eq!(r.front_left.raw, 500_000);
    assert_eq!(r.front_right.raw, -500_000);
    assert_eq!(r.back_left.raw, -500_000);
    assert_eq!(r.back_right.raw, 500_000);
}

#[test]
fn x_drive_mixes_all_three_inputs() {
    let drive = XDrive::new(
        Ratio::from_units(1),
        Length::from_units(2),
        Length::from_units(4),
    );
    assert_eq!(drive.wheel_radius.raw, 1_000_000);
    assert_eq!(drive.turn_radius.raw, 2_000_000);
    let r = drive.drive(
        Ratio::from_raw(100_000),
        Ratio::from_raw(200_000),
        Ratio::from_raw(400_000),
    );
    assert_eq!(r.front_left.raw, 700_000);
    assert_eq!(r.front_right.raw, -300_000);
    assert_eq!(r.back_left.raw, 500_000);
    assert_eq!(r.back_right.raw, -100_000);
    // no clamping in this layer: components may exceed a full ratio
    let big = drive.drive(
        Ratio::from_raw(900_000),
        Ratio::from_raw(900_000),
        Ratio::from_raw(900_000),
    );
    assert_eq!(big.front_left.raw, 2_700_000);
}

#[test]
fn tank_mixing_is_direct() {
    let drive = tank();
    let sides = drive.drive_tank(Ratio::from_raw(300_000), Ratio::from_raw(-400_000));
    assert_eq!(sides.left.raw, 300_000);
    assert_eq!(sides.right.raw, -400_000);
}

#[test]
fn arcade_mixing_sums_and_differences() {
    let drive = tank();
    let sides = drive.drive_arcade(Ratio::from_raw(250_000), Ratio::from_raw(500_000));
    assert_eq!(sides.left.raw, 750_000);
    assert_eq!(sides.right.raw, 250_000);
}

#[test]
fn distance_goal_conversion() {
    // ten units over a one-unit wheel radius at unit gearing: ten radians
    let motion = tank().drive_distance(Length::from_units(10), Time::from_raw(0));
    assert_eq!(motion.left_position.target.raw, 10_000_000);
    assert_eq!(motion.right_position.target.raw, 10_000_000);
    assert_eq!(motion.left_velocity.target.raw, 0);
    assert_eq!(motion.right_velocity.target.raw, 0);
}

#[test]
fn rotation_goal_conversion() {
    // a quarter turn times half the four-unit track width over the wheel
    // radius: the sides aim at opposite goals
    let motion = tank().rotate_angle(Angle::from_raw(1_570_796), Time::from_raw(0));
    assert_eq!(motion.left_position.target.raw, 3_141_592);
    assert_eq!(motion.right_position.target.raw, -3_141_592);
}

#[test]
fn motion_cycle_cascades_position_into_velocity() {
    let mut motion = tank().drive_distance(Length::from_units(10), Time::from_raw(0));
    let step = motion.cycle(
        Angle::from_raw(0),
        Angle::from_raw(0),
        AngularVelocity::from_raw(0),
        AngularVelocity::from_raw(0),
        Time::from_millis(50),
    );
    // position stage commands ten radians per second; the incremental
    // velocity stage meets it with its integral channel: 10 * 0.05
    let expected = ElectricPotential::from_raw(500_000);
    assert_eq!(step, TankMotionStep::Drive(expected, expected));
    assert_eq!(motion.left_velocity.target.raw, 10_000_000);
}

#[test]
fn motion_cycle_completes_at_goal() {
    let mut motion = tank().drive_distance(Length::from_units(10), Time::from_raw(0));
    let step = motion.cycle(
        Angle::from_units(10),
        Angle::from_units(10),
        AngularVelocity::from_raw(0),
        AngularVelocity::from_raw(0),
        Time::from_millis(50),
    );
    assert_eq!(step, TankMotionStep::Complete);
}

#[test]
fn motion_keeps_driving_while_one_side_lags() {
    let mut motion = tank().drive_distance(Length::from_units(10), Time::from_raw(0));
    let step = motion.cycle(
        Angle::from_units(10),
        Angle::from_raw(0),
        AngularVelocity::from_raw(0),
        AngularVelocity::from_raw(0),
        Time::from_millis(50),
    );
    assert!(matches!(step, TankMotionStep::Drive(_, _)));
}
