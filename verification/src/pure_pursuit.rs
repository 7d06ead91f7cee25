//! Pure-pursuit path follower: steers toward the intersection of a fixed
//! lookahead circle, centered on the robot, with the current path segment,
//! and advances to the next waypoint once the robot is within the lookahead
//! radius of it.

use vstd::prelude::*;
use crate::math::{
    abs_q, add_q, sub_q, neg_q, mul_q, div_q, sqrt_q, norm_q, fix_abs, fix_add, fix_sub,
    fix_neg, fix_mul, fix_div, fix_sqrt, fix_norm, lemma_norm_q_bounds, PI_RAW,
};
use crate::units::{Angle, Length};
use crate::coordinates::{bearing_q, dist_q, Coordinates, Position};

verus! {

/// The per-cycle output of the follower: the straight-line distance to the
/// pursuit target and the normalized heading error toward it.
#[derive(Clone, Copy, PartialEq, Eq, Structural, Debug)]
pub struct PurePursuitCommands(pub Length, pub Angle);

/// The path follower: an ordered waypoint sequence, the index of the
/// waypoint currently pursued, the fixed lookahead radius, and an enabled
/// flag the owner toggles.
pub struct PurePursuitSystem {
    pub current_node: usize,
    pub sequence: Option<Vec<Coordinates>>,
    pub look_ahead_distance: Length,
    pub enabled: bool,
}

/// Mathematical image of the follower.
pub ghost struct PursuitModel {
    pub current_node: int,
    pub sequence: Option<Seq<(int, int)>>,
    pub look_ahead: int,
    pub enabled: bool,
}

/// A waypoint sequence as the integer pairs it holds.
pub open spec fn points_view(sequence: Option<Vec<Coordinates>>) -> Option<Seq<(int, int)>> {
    match sequence {
        Option::Some(points) => Option::Some(
            points@.map_values(|c: Coordinates| (c.x@, c.y@)),
        ),
        Option::None => Option::None,
    }
}

impl View for PurePursuitSystem {
    type V = PursuitModel;

    open spec fn view(&self) -> PursuitModel {
        PursuitModel {
            current_node: self.current_node as int,
            sequence: points_view(self.sequence),
            look_ahead: self.look_ahead_distance@,
            enabled: self.enabled,
        }
    }
}

/// The pursuit target for the segment from `prev` to `next`, seen from the
/// robot at `(rx, ry)`: the intersection of the lookahead circle with the
/// segment's carrier line that lies closer to `next`, or `prev` itself when
/// the line misses the circle (the robot is off the path beyond the
/// lookahead radius).
pub open spec fn target_point_q(
    look: int,
    px: int,
    py: int,
    nx: int,
    ny: int,
    rx: int,
    ry: int,
) -> (int, int) {
    let x1 = sub_q(px, rx);
    let y1 = sub_q(py, ry);
    let x2 = sub_q(nx, rx);
    let y2 = sub_q(ny, ry);
    let dx = sub_q(x2, x1);
    let dy = sub_q(y2, y1);
    let dr2 = add_q(mul_q(dx, dx), mul_q(dy, dy));
    let d = sub_q(mul_q(x1, y2), mul_q(x2, y1));
    let disc = sub_q(mul_q(mul_q(look, look), dr2), mul_q(d, d));
    if disc >= 0 {
        let root = sqrt_q(disc);
        let sxr = if dy >= 0 {
            mul_q(dx, root)
        } else {
            neg_q(mul_q(dx, root))
        };
        let ayr = mul_q(abs_q(dy), root);
        let t1x = add_q(div_q(add_q(mul_q(d, dy), sxr), dr2), rx);
        let t1y = add_q(div_q(add_q(neg_q(mul_q(d, dx)), ayr), dr2), ry);
        let t2x = add_q(div_q(sub_q(mul_q(d, dy), sxr), dr2), rx);
        let t2y = add_q(div_q(sub_q(neg_q(mul_q(d, dx)), ayr), dr2), ry);
        if dist_q(t1x, t1y, nx, ny) < dist_q(t2x, t2y, nx, ny) {
            (t1x, t1y)
        } else {
            (t2x, t2y)
        }
    } else {
        (px, py)
    }
}

impl PursuitModel {
    /// The follower state after one cycle at the given pose.
    pub open spec fn cycled(self, rx: int, ry: int, heading: int) -> PursuitModel {
        if !self.enabled {
            self
        } else {
            match self.sequence {
                Option::None => self,
                Option::Some(points) => {
                    if self.current_node < points.len() {
                        let next = points[self.current_node];
                        let node2 = if dist_q(next.0, next.1, rx, ry) < self.look_ahead {
                            self.current_node + 1
                        } else {
                            self.current_node
                        };
                        PursuitModel { current_node: node2, ..self }
                    } else {
                        PursuitModel { current_node: 0, sequence: Option::None, ..self }
                    }
                },
            }
        }
    }

    /// The command one cycle reports at the given pose: nothing while
    /// disabled, the zero command when no waypoint is left, else the
    /// distance and normalized heading error toward the pursuit target.
    pub open spec fn command(self, rx: int, ry: int, heading: int) -> Option<(int, int)> {
        if !self.enabled {
            Option::None
        } else {
            match self.sequence {
                Option::None => Option::Some((0, 0)),
                Option::Some(points) => {
                    if self.current_node < points.len() {
                        let prev = if self.current_node == 0 {
                            (rx, ry)
                        } else {
                            points[self.current_node - 1]
                        };
                        let next = points[self.current_node];
                        let t = target_point_q(
                            self.look_ahead,
                            prev.0,
                            prev.1,
                            next.0,
                            next.1,
                            rx,
                            ry,
                        );
                        let turn = norm_q(sub_q(bearing_q(rx, ry, t.0, t.1), heading));
                        let dist = dist_q(rx, ry, t.0, t.1);
                        Option::Some((dist, turn))
                    } else {
                        Option::Some((0, 0))
                    }
                },
            }
        }
    }
}

/// A reported command as the integer pair it holds.
pub open spec fn command_view(r: Option<PurePursuitCommands>) -> Option<(int, int)> {
    match r {
        Option::Some(c) => Option::Some((c.0@, c.1@)),
        Option::None => Option::None,
    }
}

impl PurePursuitSystem {
    /// A follower with no path, disabled, with a lookahead radius of
    /// twenty base length units.
    pub fn new() -> (r: Self)
        ensures
            r@ == (PursuitModel {
                current_node: 0,
                sequence: Option::None,
                look_ahead: 20_000_000,
                enabled: false,
            }),
    {
        PurePursuitSystem {
            current_node: 0,
            sequence: Option::None,
            look_ahead_distance: Length { raw: 20_000_000 },
            enabled: false,
        }
    }

    /// Replace the path wholesale: progress resets to the first waypoint
    /// and tracking is disabled until the owner re-enables it.
    pub fn set_sequence(&mut self, sequence: Option<Vec<Coordinates>>)
        ensures
            final(self)@ == (PursuitModel {
                current_node: 0,
                sequence: points_view(sequence),
                enabled: false,
                ..old(self)@
            }),
    {
        self.sequence = sequence;
        self.current_node = 0;
        self.enabled = false;
    }

    /// The pursuit target for one segment; public so that callers can
    /// inspect the geometry the follower steers by.
    pub fn get_target_point(
        &self,
        previous_point: Coordinates,
        next_point: Coordinates,
        robot_position: Coordinates,
    ) -> (r: Coordinates)
        ensures
            (r.x@, r.y@) == target_point_q(
                self.look_ahead_distance@,
                previous_point.x@,
                previous_point.y@,
                next_point.x@,
                next_point.y@,
                robot_position.x@,
                robot_position.y@,
            ),
    {
        let x1: i64 = fix_sub(previous_point.x.raw, robot_position.x.raw);
        let y1: i64 = fix_sub(previous_point.y.raw, robot_position.y.raw);
        let x2: i64 = fix_sub(next_point.x.raw, robot_position.x.raw);
        let y2: i64 = fix_sub(next_point.y.raw, robot_position.y.raw);
        let dx: i64 = fix_sub(x2, x1);
        let dy: i64 = fix_sub(y2, y1);
        let dr2: i64 = fix_add(fix_mul(dx, dx), fix_mul(dy, dy));
        let d: i64 = fix_sub(fix_mul(x1, y2), fix_mul(x2, y1));
        let look: i64 = self.look_ahead_distance.raw;
        let disc: i64 = fix_sub(fix_mul(fix_mul(look, look), dr2), fix_mul(d, d));
        if disc >= 0 {
            let root: i64 = fix_sqrt(disc);
            let sxr: i64 = if dy >= 0 {
                fix_mul(dx, root)
            } else {
                fix_neg(fix_mul(dx, root))
            };
            let ayr: i64 = fix_mul(fix_abs(dy), root);
            let target_point1 = Coordinates {
                x: Length { raw: fix_add(fix_div(fix_add(fix_mul(d, dy), sxr), dr2), robot_position.x.raw) },
                y: Length { raw: fix_add(fix_div(fix_add(fix_neg(fix_mul(d, dx)), ayr), dr2), robot_position.y.raw) },
            };
            let target_point2 = Coordinates {
                x: Length { raw: fix_add(fix_div(fix_sub(fix_mul(d, dy), sxr), dr2), robot_position.x.raw) },
                y: Length { raw: fix_add(fix_div(fix_sub(fix_neg(fix_mul(d, dx)), ayr), dr2), robot_position.y.raw) },
            };
            if target_point1.distance_to(&next_point).raw < target_point2.distance_to(&next_point).raw {
                target_point1
            } else {
                target_point2
            }
        } else {
            previous_point
        }
    }

    /// Run one follower cycle at the given pose: report the pursuit
    /// command and advance the waypoint index once the robot is inside
    /// the lookahead radius of the pursued waypoint.
    pub fn cycle(&mut self, robot_position: Position) -> (r: Option<PurePursuitCommands>)
        ensures
            final(self)@ == old(self)@.cycled(
                robot_position.0.x@,
                robot_position.0.y@,
                robot_position.1@,
            ),
            command_view(r) == old(self)@.command(
                robot_position.0.x@,
                robot_position.0.y@,
                robot_position.1@,
            ),
    {
        let robot: Coordinates = robot_position.0;
        if !self.enabled {
            return Option::None;
        }
        let n: usize = match &self.sequence {
            Option::Some(points) => points.len(),
            Option::None => {
                return Option::Some(
                    PurePursuitCommands(Length { raw: 0 }, Angle { raw: 0 }),
                );
            },
        };
        if self.current_node >= n {
            self.current_node = 0;
            self.sequence = Option::None;
            return Option::Some(PurePursuitCommands(Length { raw: 0 }, Angle { raw: 0 }));
        }
        let prev: Coordinates = if self.current_node == 0 {
            robot
        } else {
            match &self.sequence {
                Option::Some(points) => points[self.current_node - 1],
                Option::None => robot,
            }
        };
        let next: Coordinates = match &self.sequence {
            Option::Some(points) => points[self.current_node],
            Option::None => robot,
        };
        let target: Coordinates = self.get_target_point(prev, next, robot);
        let turn_error: Angle = Angle {
            raw: fix_norm(fix_sub(robot.angle_to(&target).raw, robot_position.1.raw)),
        };
        let distance_error: Length = robot.distance_to(&target);
        if next.distance_to(&robot).raw < self.look_ahead_distance.raw {
            self.current_node = self.current_node + 1;
        }
        Option::Some(PurePursuitCommands(distance_error, turn_error))
    }
}

/// While the follower is disabled a cycle at any pose reports nothing and
/// leaves the follower unchanged; since replacing the path disables
/// tracking, every cycle after clearing the path reports nothing.
pub proof fn lemma_disabled_cycle(m: PursuitModel, rx: int, ry: int, heading: int)
    requires
        !m.enabled,
    ensures
        m.cycled(rx, ry, heading) == m,
        m.command(rx, ry, heading) is None,
{
}

} // verus!

verus! {

/// Waypoint advancement: an enabled follower pursuing a waypoint of its
/// path advances past it exactly when the robot sits inside the lookahead
/// radius of that waypoint.
pub proof fn lemma_waypoint_advance(
    m: PursuitModel,
    points: Seq<(int, int)>,
    rx: int,
    ry: int,
    heading: int,
)
    requires
        m.enabled,
        m.sequence == Option::Some(points),
        0 <= m.current_node < points.len(),
    ensures
        dist_q(points[m.current_node].0, points[m.current_node].1, rx, ry) < m.look_ahead
            ==> m.cycled(rx, ry, heading).current_node == m.current_node + 1,
        dist_q(points[m.current_node].0, points[m.current_node].1, rx, ry) >= m.look_ahead
            ==> m.cycled(rx, ry, heading).current_node == m.current_node,
{
}

/// Every heading error the follower reports is already normalized: it lies
/// strictly above minus the half turn and at most at the half turn.
pub proof fn lemma_command_turn_normalized(m: PursuitModel, rx: int, ry: int, heading: int)
    ensures
        match m.command(rx, ry, heading) {
            Option::Some(c) => -(PI_RAW as int) < c.1 <= PI_RAW as int,
            Option::None => true,
        },
{
    if m.enabled {
        match m.sequence {
            Option::Some(points) => {
                if m.current_node < points.len() {
                    let prev = if m.current_node == 0 {
                        (rx, ry)
                    } else {
                        points[m.current_node - 1]
                    };
                    let next = points[m.current_node];
                    let t = target_point_q(
                        m.look_ahead,
                        prev.0,
                        prev.1,
                        next.0,
                        next.1,
                        rx,
                        ry,
                    );
                    lemma_norm_q_bounds(sub_q(bearing_q(rx, ry, t.0, t.1), heading));
                }
            },
            Option::None => {
            },
        }
    }
}

} // verus!
