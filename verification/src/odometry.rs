//! Dead-reckoning pose estimator for a three-wheel tracking layout: two
//! wheels parallel to the drive direction and one perpendicular to it.
//! Each cycle turns the three fresh rotation readings into an arc-chord
//! displacement and rotates it into the global frame at the average
//! heading over the cycle.

use vstd::prelude::*;
use crate::math::{
    add_q, sub_q, mul_q, div_q, half_q, sin_q, cos_q, clamp_raw, fix_add, fix_sub, fix_mul,
    fix_div, fix_half, fix_mul_int, fix_sin, fix_cos, lemma_fix_zero, lemma_mul_q_neg,
    neg_q, MAX_RAW,
};
use crate::units::{Angle, Length};
use crate::coordinates::Position;

verus! {

/// The pose estimator.  The caller owns the three tracking sensors, reads
/// them once per cycle and hands the readings in; a failed read skips the
/// cycle, so the committed pose is never touched by a partial update.
pub struct OdometrySystem {
    pub wheel_radius: Length,
    pub last_left_angle: Angle,
    pub last_right_angle: Angle,
    pub last_rear_angle: Angle,
    pub left_wheel_offset: Length,
    pub right_wheel_offset: Length,
    pub rear_wheel_offset: Length,
    pub x_state: Length,
    pub y_state: Length,
    pub heading_state: Angle,
}

/// Mathematical image of the estimator: the integers its fields hold.
pub ghost struct OdometryModel {
    pub wheel_radius: int,
    pub last_left: int,
    pub last_right: int,
    pub last_rear: int,
    pub left_offset: int,
    pub right_offset: int,
    pub rear_offset: int,
    pub x: int,
    pub y: int,
    pub heading: int,
}

impl View for OdometrySystem {
    type V = OdometryModel;

    open spec fn view(&self) -> OdometryModel {
        OdometryModel {
            wheel_radius: self.wheel_radius@,
            last_left: self.last_left_angle@,
            last_right: self.last_right_angle@,
            last_rear: self.last_rear_angle@,
            left_offset: self.left_wheel_offset@,
            right_offset: self.right_wheel_offset@,
            rear_offset: self.rear_wheel_offset@,
            x: self.x_state@,
            y: self.y_state@,
            heading: self.heading_state@,
        }
    }
}

/// Chord-length correction factor: twice the sine of half the heading
/// change, which turns an arc length into the matching chord length.
pub open spec fn chord_factor(hc: int) -> int {
    clamp_raw(sin_q(half_q(hc)) * 2)
}

/// The x component of a local displacement rotated into the global frame
/// at the given heading: headings grow clockwise from the positive y axis.
pub open spec fn global_dx(local_x: int, local_y: int, heading: int) -> int {
    add_q(mul_q(local_x, cos_q(heading)), mul_q(local_y, sin_q(heading)))
}

/// The y component of a local displacement rotated into the global frame.
pub open spec fn global_dy(local_x: int, local_y: int, heading: int) -> int {
    sub_q(mul_q(local_y, cos_q(heading)), mul_q(local_x, sin_q(heading)))
}

impl OdometryModel {
    /// The turn diameter: the two parallel wheels' offsets from the center
    /// of rotation, summed.
    pub open spec fn turn_diameter(self) -> int {
        add_q(self.left_offset, self.right_offset)
    }

    /// Distance rolled by a tracking wheel between its last reading and a
    /// fresh one.
    pub open spec fn wheel_travel(self, last: int, now: int) -> int {
        mul_q(sub_q(now, last), self.wheel_radius)
    }

    /// Heading change measured by a cycle with the given parallel readings.
    pub open spec fn heading_change(self, left: int, right: int) -> int {
        div_q(
            sub_q(
                self.wheel_travel(self.last_left, left),
                self.wheel_travel(self.last_right, right),
            ),
            self.turn_diameter(),
        )
    }

    /// Local lateral displacement: the rear wheel's raw travel when no
    /// rotation happened, else the chord-corrected arc.
    pub open spec fn local_lateral(self, hc: int, rear_travel: int) -> int {
        if hc == 0 {
            rear_travel
        } else {
            mul_q(chord_factor(hc), add_q(div_q(rear_travel, hc), self.rear_offset))
        }
    }

    /// Local forward displacement: the right wheel's raw travel when no
    /// rotation happened, else the chord-corrected arc.
    pub open spec fn local_forward(self, hc: int, right_travel: int) -> int {
        if hc == 0 {
            right_travel
        } else {
            mul_q(chord_factor(hc), add_q(div_q(right_travel, hc), self.right_offset))
        }
    }

    /// The estimator state after one cycle on the given readings.
    pub open spec fn cycled(self, left: int, right: int, rear: int) -> OdometryModel {
        let rdc = self.wheel_travel(self.last_right, right);
        let sdc = self.wheel_travel(self.last_rear, rear);
        let hc = self.heading_change(left, right);
        let lx = self.local_lateral(hc, sdc);
        let ly = self.local_forward(hc, rdc);
        let avg = add_q(self.heading, half_q(hc));
        OdometryModel {
            last_left: left,
            last_right: right,
            last_rear: rear,
            x: add_q(self.x, global_dx(lx, ly, avg)),
            y: add_q(self.y, global_dy(lx, ly, avg)),
            heading: add_q(self.heading, hc),
            ..self
        }
    }
}

impl OdometrySystem {
    /// Build an estimator at the origin with zeroed reading baselines; the
    /// caller zeroes the physical sensors to match.
    pub fn new(
        wheel_diameter: Length,
        left_wheel_offset: Length,
        right_wheel_offset: Length,
        rear_wheel_offset: Length,
    ) -> (r: Self)
        ensures
            r.wheel_radius@ == half_q(wheel_diameter@),
            r.left_wheel_offset == left_wheel_offset,
            r.right_wheel_offset == right_wheel_offset,
            r.rear_wheel_offset == rear_wheel_offset,
            r.last_left_angle@ == 0,
            r.last_right_angle@ == 0,
            r.last_rear_angle@ == 0,
            r.x_state@ == 0,
            r.y_state@ == 0,
            r.heading_state@ == 0,
    {
        OdometrySystem {
            wheel_radius: Length { raw: fix_half(wheel_diameter.raw) },
            last_left_angle: Angle { raw: 0 },
            last_right_angle: Angle { raw: 0 },
            last_rear_angle: Angle { raw: 0 },
            left_wheel_offset,
            right_wheel_offset,
            rear_wheel_offset,
            x_state: Length { raw: 0 },
            y_state: Length { raw: 0 },
            heading_state: Angle { raw: 0 },
        }
    }

    /// The most recently committed pose.
    pub fn get_position(&self) -> (r: Position)
        ensures
            r.0.x == self.x_state,
            r.0.y == self.y_state,
            r.1 == self.heading_state,
    {
        Position::new(self.x_state, self.y_state, self.heading_state)
    }

    /// Run one estimation cycle on fresh readings from the three tracking
    /// wheels, committing the new pose and reading baselines.
    pub fn cycle(&mut self, left_angle: Angle, right_angle: Angle, rear_angle: Angle)
        ensures
            final(self)@ == old(self)@.cycled(left_angle@, right_angle@, rear_angle@),
    {
        let ldc: i64 = fix_mul(
            fix_sub(left_angle.raw, self.last_left_angle.raw),
            self.wheel_radius.raw,
        );
        let rdc: i64 = fix_mul(
            fix_sub(right_angle.raw, self.last_right_angle.raw),
            self.wheel_radius.raw,
        );
        let sdc: i64 = fix_mul(
            fix_sub(rear_angle.raw, self.last_rear_angle.raw),
            self.wheel_radius.raw,
        );
        let td: i64 = fix_add(self.left_wheel_offset.raw, self.right_wheel_offset.raw);
        let hc: i64 = fix_div(fix_sub(ldc, rdc), td);
        let k: i64 = fix_mul_int(fix_sin(fix_half(hc)), 2);
        let local_x: i64 = if hc == 0 {
            sdc
        } else {
            fix_mul(k, fix_add(fix_div(sdc, hc), self.rear_wheel_offset.raw))
        };
        let local_y: i64 = if hc == 0 {
            rdc
        } else {
            fix_mul(k, fix_add(fix_div(rdc, hc), self.right_wheel_offset.raw))
        };
        let avg: i64 = fix_add(self.heading_state.raw, fix_half(hc));
        let c: i64 = fix_cos(avg);
        let s: i64 = fix_sin(avg);
        let dx: i64 = fix_add(fix_mul(local_x, c), fix_mul(local_y, s));
        let dy: i64 = fix_sub(fix_mul(local_y, c), fix_mul(local_x, s));
        self.x_state = Length { raw: fix_add(self.x_state.raw, dx) };
        self.y_state = Length { raw: fix_add(self.y_state.raw, dy) };
        self.heading_state = Angle { raw: fix_add(self.heading_state.raw, hc) };
        self.last_left_angle = left_angle;
        self.last_right_angle = right_angle;
        self.last_rear_angle = rear_angle;
    }
}

} // verus!

verus! {

/// Zero-rotation branch: when the measured heading change is zero, the
/// local displacement is exactly the two raw distance changes — no
/// division by the heading change occurs — and the heading is unchanged.
pub proof fn lemma_zero_rotation_cycle(m: OdometryModel, left: int, right: int, rear: int)
    requires
        m.heading_change(left, right) == 0,
        -(MAX_RAW as int) <= m.heading <= MAX_RAW as int,
    ensures
        ({
            let n = m.cycled(left, right, rear);
            let sdc = m.wheel_travel(m.last_rear, rear);
            let rdc = m.wheel_travel(m.last_right, right);
            &&& n.x == add_q(m.x, global_dx(sdc, rdc, m.heading))
            &&& n.y == add_q(m.y, global_dy(sdc, rdc, m.heading))
            &&& n.heading == m.heading
        }),
{
    lemma_fix_zero(0);
}

/// Straight-line invariant, one cycle: when the two parallel wheels
/// measure the same rotation delta and the rear wheel none, the heading
/// is unchanged and the pose advances by the rolled distance resolved
/// along the heading direction.
pub proof fn lemma_straight_cycle(m: OdometryModel, left: int, right: int, rear: int)
    requires
        sub_q(left, m.last_left) == sub_q(right, m.last_right),
        rear == m.last_rear,
        -(MAX_RAW as int) <= m.heading <= MAX_RAW as int,
    ensures
        ({
            let n = m.cycled(left, right, rear);
            let d = m.wheel_travel(m.last_right, right);
            &&& n.heading == m.heading
            &&& n.x == add_q(m.x, mul_q(d, sin_q(m.heading)))
            &&& n.y == add_q(m.y, mul_q(d, cos_q(m.heading)))
        }),
{
    lemma_fix_zero(m.turn_diameter());
    lemma_fix_zero(m.wheel_radius);
    lemma_fix_zero(0);
    assert(m.heading_change(left, right) == 0);
    lemma_fix_zero(cos_q(m.heading));
    lemma_fix_zero(sin_q(m.heading));
}

} // verus!

verus! {

/// Pure-rotation invariant, one cycle: when the two parallel wheels
/// measure opposite rotation deltas and the other two hypotheses say the
/// readings are consistent with a pivot about the tracking center — the
/// right arc over the heading change is exactly minus the right offset,
/// and the rear arc over the heading change exactly minus the rear offset
/// — the pose does not move, and the heading changes by the parallel
/// travel difference over the turn diameter: twice the right travel,
/// negated, over the diameter.
pub proof fn lemma_pure_rotation_cycle(m: OdometryModel, left: int, right: int, rear: int)
    requires
        sub_q(left, m.last_left) == neg_q(sub_q(right, m.last_right)),
        ({
            let hc = m.heading_change(left, right);
            &&& hc != 0
            &&& add_q(div_q(m.wheel_travel(m.last_rear, rear), hc), m.rear_offset) == 0
            &&& add_q(div_q(m.wheel_travel(m.last_right, right), hc), m.right_offset) == 0
        }),
        -(MAX_RAW as int) <= m.x <= MAX_RAW as int,
        -(MAX_RAW as int) <= m.y <= MAX_RAW as int,
    ensures
        ({
            let n = m.cycled(left, right, rear);
            let hc = m.heading_change(left, right);
            &&& n.x == m.x
            &&& n.y == m.y
            &&& n.heading == add_q(m.heading, hc)
            &&& hc == div_q(
                clamp_raw(-2 * m.wheel_travel(m.last_right, right)),
                m.turn_diameter(),
            )
        }),
{
    let hc = m.heading_change(left, right);
    let avg = add_q(m.heading, half_q(hc));
    lemma_fix_zero(chord_factor(hc));
    lemma_fix_zero(cos_q(avg));
    lemma_fix_zero(sin_q(avg));
    let dr = sub_q(right, m.last_right);
    lemma_mul_q_neg(dr, m.wheel_radius);
}

impl OdometryModel {
    /// The estimator state after a whole run of cycles.
    pub open spec fn cycled_seq(self, readings: Seq<(int, int, int)>) -> OdometryModel
        decreases readings.len(),
    {
        if readings.len() == 0 {
            self
        } else {
            self.cycled(readings[0].0, readings[0].1, readings[0].2).cycled_seq(
                readings.skip(1),
            )
        }
    }
}

/// The distances the right tracking wheel rolls over a run of readings.
pub open spec fn right_travels(m: OdometryModel, readings: Seq<(int, int, int)>) -> Seq<int> {
    Seq::new(
        readings.len(),
        |i: int| mul_q(
            sub_q(
                readings[i].1,
                if i == 0 {
                    m.last_right
                } else {
                    readings[i - 1].1
                },
            ),
            m.wheel_radius,
        ),
    )
}

/// A coordinate advanced by each travel of a run, resolved along one fixed
/// direction component.
pub open spec fn advance_along(x0: int, dirn: int, travels: Seq<int>) -> int
    decreases travels.len(),
{
    if travels.len() == 0 {
        x0
    } else {
        advance_along(add_q(x0, mul_q(travels[0], dirn)), dirn, travels.skip(1))
    }
}

/// Straight-line invariant over a whole run: while every cycle's parallel
/// deltas agree and the rear wheel is idle, the heading never moves, and
/// the pose advances along the fixed heading direction by each cycle's
/// rolled distance in turn.
pub proof fn lemma_straight_run(m: OdometryModel, readings: Seq<(int, int, int)>)
    requires
        -(MAX_RAW as int) <= m.heading <= MAX_RAW as int,
        forall|i: int| #![trigger readings[i]] 0 <= i < readings.len() ==> {
            let pl = if i == 0 {
                m.last_left
            } else {
                readings[i - 1].0
            };
            let pr = if i == 0 {
                m.last_right
            } else {
                readings[i - 1].1
            };
            &&& sub_q(readings[i].0, pl) == sub_q(readings[i].1, pr)
            &&& readings[i].2 == m.last_rear
        },
    ensures
        ({
            let n = m.cycled_seq(readings);
            &&& n.heading == m.heading
            &&& n.x == advance_along(m.x, sin_q(m.heading), right_travels(m, readings))
            &&& n.y == advance_along(m.y, cos_q(m.heading), right_travels(m, readings))
        }),
    decreases readings.len(),
{
    if readings.len() > 0 {
        let first = readings[0];
        assert(0 < readings.len());
        lemma_straight_cycle(m, first.0, first.1, first.2);
        let m1 = m.cycled(first.0, first.1, first.2);
        let tail = readings.skip(1);
        assert forall|i: int| #![trigger tail[i]] 0 <= i < tail.len() implies {
            let pl = if i == 0 {
                m1.last_left
            } else {
                tail[i - 1].0
            };
            let pr = if i == 0 {
                m1.last_right
            } else {
                tail[i - 1].1
            };
            &&& sub_q(tail[i].0, pl) == sub_q(tail[i].1, pr)
            &&& tail[i].2 == m1.last_rear
        } by {
            assert(tail[i] == readings[i + 1]);
            if i > 0 {
                assert(tail[i - 1] == readings[i]);
            }
        }
        lemma_straight_run(m1, tail);
        assert(right_travels(m1, tail) =~= right_travels(m, readings).skip(1)) by {
            assert forall|j: int| 0 <= j < tail.len() implies right_travels(m1, tail)[j]
                == right_travels(m, readings).skip(1)[j] by {
                assert(tail[j] == readings[j + 1]);
                if j > 0 {
                    assert(tail[j - 1] == readings[j]);
                }
                assert(right_travels(m, readings).skip(1)[j] == right_travels(m, readings)[j + 1]);
            }
        }
        assert(right_travels(m, readings)[0] == m.wheel_travel(m.last_right, first.1));
        assert(right_travels(m, readings).len() == readings.len());
    }
}

} // verus!
