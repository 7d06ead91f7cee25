use motion_core::coordinates::{Coordinates, Position};
use motion_core::math::{HALF_PI_RAW, PI_RAW};
use motion_core::pure_pursuit::{PurePursuitCommands, PurePursuitSystem};
use motion_core::units::{Angle, Length};

fn point(x: i64, y: i64) -> Coordinates {
    Coordinates::new(Length::from_units(x), Length::from_units(y))
}

fn pose(x: i64, y: i64, heading_raw: i64) -> Position {
    Position::new(
        Length::from_units(x),
        Length::from_units(y),
        Angle::from_raw(heading_raw),
    )
}

#[test]
fn new_follower_is_disabled_with_default_lookahead() {
    let sys = PurePursuitSystem::new();
    assert!(!sys.enabled);
    assert!(sys.sequence.is_none());
    assert_eq!(sys.current_node, 0);
    assert_eq!(sys.look_ahead_distance.raw, 20_000_000);
}

#[test]
fn disabled_cycle_reports_nothing() {
    let mut sys = PurePursuitSystem::new();
    sys.set_sequence(None);
    assert_eq!(sys.cycle(pose(3, 4, 123)), None);
    assert_eq!(sys.cycle(pose(-7, 0, -456)), None);
}

#[test]
fn clearing_the_path_disables_tracking() {
    // replacing the sequence always disables, whatever ran before
    let mut sys = PurePursuitSystem::new();
    sys.set_sequence(Some(vec![point(0, 0), point(10, 0)]));
    sys.enabled = true;
    sys.current_node = 1;
    assert!(matches!(sys.cycle(pose(1, 0, 0)), Some(_)));
    sys.set_sequence(None);
    assert!(!sys.enabled);
    assert_eq!(sys.current_node, 0);
    assert_eq!(sys.cycle(pose(1, 0, 0)), None);
    assert_eq!(sys.cycle(pose(9, 9, 55)), None);
}

#[test]
fn waypoint_advances_inside_lookahead() {
    // path (0,0) -> (10,0) -> (10,10), lookahead two units, robot at
    // (9,0) facing along positive x: the target sits at (11,0), dead
    // ahead two units away, and the follower captures (10,0)
    let mut sys = PurePursuitSystem::new();
    sys.set_sequence(Some(vec![point(0, 0), point(10, 0), point(10, 10)]));
    sys.look_ahead_distance = Length::from_units(2);
    sys.current_node = 1;
    sys.enabled = true;
    let cmd = sys.cycle(pose(9, 0, HALF_PI_RAW));
    let expected = PurePursuitCommands(Length::from_units(2), Angle::from_raw(0));
    assert_eq!(cmd, Some(expected));
    assert_eq!(sys.current_node, 2);
}

#[test]
fn waypoint_holds_outside_lookahead() {
    let mut sys = PurePursuitSystem::new();
    sys.set_sequence(Some(vec![point(0, 0), point(10, 0), point(10, 10)]));
    sys.look_ahead_distance = Length::from_units(2);
    sys.current_node = 1;
    sys.enabled = true;
    let cmd = sys.cycle(pose(5, 0, HALF_PI_RAW));
    assert!(cmd.is_some());
    assert_eq!(sys.current_node, 1);
}

#[test]
fn target_point_picks_intersection_closer_to_next() {
    let mut sys = PurePursuitSystem::new();
    sys.look_ahead_distance = Length::from_units(2);
    let target = sys.get_target_point(point(0, 0), point(10, 0), point(9, 0));
    assert_eq!(target.x.raw, 11_000_000);
    assert_eq!(target.y.raw, 0);
}

#[test]
fn off_path_robot_falls_back_to_previous_waypoint() {
    // the lookahead circle misses the segment's line entirely: the
    // follower steers for the previous waypoint
    let mut sys = PurePursuitSystem::new();
    sys.set_sequence(Some(vec![point(0, 0), point(10, 0)]));
    sys.look_ahead_distance = Length::from_units(2);
    sys.current_node = 1;
    sys.enabled = true;
    let cmd = sys.cycle(pose(0, 50, 0)).unwrap();
    // fifty units back to (0,0), bearing straight down the negative y axis
    assert_eq!(cmd.0.raw, 50_000_000);
    assert_eq!(cmd.1.raw, 2 * HALF_PI_RAW);
    assert!(cmd.1.raw <= PI_RAW);
}

#[test]
fn exhausted_path_reports_zero_and_clears() {
    let mut sys = PurePursuitSystem::new();
    sys.set_sequence(Some(vec![point(1, 0)]));
    sys.look_ahead_distance = Length::from_units(2);
    sys.current_node = 1;
    sys.enabled = true;
    let cmd = sys.cycle(pose(1, 0, 0));
    let zero = PurePursuitCommands(Length::from_raw(0), Angle::from_raw(0));
    assert_eq!(cmd, Some(zero));
    assert!(sys.sequence.is_none());
    assert_eq!(sys.current_node, 0);
    // still enabled with no path: keeps reporting the zero command
    assert_eq!(sys.cycle(pose(4, 4, 99)), Some(zero));
}

#[test]
fn heading_error_is_normalized() {
    // robot one full turn and a quarter off: the reported error folds
    // into the half-turn range instead of demanding a full spin
    let mut sys = PurePursuitSystem::new();
    sys.set_sequence(Some(vec![point(0, 0), point(10, 0)]));
    sys.look_ahead_distance = Length::from_units(2);
    sys.current_node = 1;
    sys.enabled = true;
    let full_turn: i64 = 2 * PI_RAW;
    let cmd = sys.cycle(pose(9, 0, HALF_PI_RAW + full_turn)).unwrap();
    assert_eq!(cmd.1.raw, 0);
}

#[test]
fn distances_come_from_coordinate_geometry() {
    let a = point(0, 0);
    let b = point(3, 4);
    assert_eq!(a.distance_to(&b).raw, 5_000_000);
    assert_eq!(b.distance_to(&a).raw, 5_000_000);
    // bearing toward positive x is a quarter turn
    assert_eq!(a.angle_to(&point(7, 0)).raw, HALF_PI_RAW);
    // bearing toward positive y is zero
    assert_eq!(a.angle_to(&point(0, 7)).raw, 0);
}
