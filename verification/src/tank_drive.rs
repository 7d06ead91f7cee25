//! Differential ("tank") drivetrain kinematics: open-loop tank and arcade
//! mixing, and closed-loop point-to-point motions that cascade a position
//! controller into a velocity controller per side.  The caller owns the
//! motors: it tares the side encoders before a motion, reads positions and
//! velocities each period, commands the returned voltages, and rests the
//! motors when the motion reports completion or is cancelled.

use vstd::prelude::*;
use crate::math::{add_q, sub_q, mul_q, div_q, half_q, neg_q, fix_add, fix_sub, fix_mul, fix_div, fix_half, fix_neg};
use crate::pid::{PositionController, PositionModel, VelocityController, VelocityModel};
use crate::units::{Angle, AngularVelocity, ElectricPotential, Length, Ratio, Time};
use crate::Gains;

verus! {

/// The two per-side command ratios of one open-loop drive call.
#[derive(Clone, Copy, PartialEq, Eq, Structural, Debug)]
pub struct TankSides {
    pub left: Ratio,
    pub right: Ratio,
}

/// What one closed-loop cycle asks the caller to do: rest the motors (the
/// goal is reached) or drive the two sides at the given voltages.
#[derive(Clone, Copy, PartialEq, Eq, Structural, Debug)]
pub enum TankMotionStep {
    Complete,
    Drive(ElectricPotential, ElectricPotential),
}

/// Differential drivetrain geometry, gains and thresholds.
pub struct TankDrive {
    pub drive_ratio: Ratio,
    pub wheel_diameter: Length,
    pub track_width: Length,
    pub distance_gains: Gains,
    pub turn_gains: Gains,
    pub left_velocity_gains: Gains,
    pub right_velocity_gains: Gains,
    pub position_threshold: Angle,
    pub velocity_threshold: AngularVelocity,
}

/// One in-flight closed-loop motion: a cascaded position and velocity
/// controller per side.  A drivetrain runs at most one motion at a time.
pub struct TankMotion {
    pub left_position: PositionController,
    pub right_position: PositionController,
    pub left_velocity: VelocityController,
    pub right_velocity: VelocityController,
}

impl TankDrive {
    /// Half the wheel diameter.
    pub open spec fn wheel_radius_q(self) -> int {
        half_q(self.wheel_diameter@)
    }

    /// The per-motor rotation goal equivalent to a chassis distance: the
    /// wheel rotation for that arc length, divided by the drive gear
    /// ratio.
    pub open spec fn distance_goal(self, distance: int) -> int {
        div_q(div_q(distance, self.wheel_radius_q()), self.drive_ratio@)
    }

    /// The per-motor rotation goal equivalent to a chassis rotation: the
    /// arc each side rolls is the angle times half the track width.
    pub open spec fn rotation_goal(self, angle: int) -> int {
        div_q(div_q(half_q(mul_q(angle, self.track_width@)), self.wheel_radius_q()), self.drive_ratio@)
    }

    fn wheel_radius(&self) -> (r: Length)
        ensures
            r@ == self.wheel_radius_q(),
    {
        Length { raw: fix_half(self.wheel_diameter.raw) }
    }

    /// Open-loop tank command: each input drives its side directly.
    pub fn drive_tank(&self, left: Ratio, right: Ratio) -> (r: TankSides)
        ensures
            r.left == left,
            r.right == right,
    {
        TankSides { left, right }
    }

    /// Open-loop arcade command: forward plus turn drives the left side,
    /// forward minus turn the right side.
    pub fn drive_arcade(&self, x: Ratio, y: Ratio) -> (r: TankSides)
        ensures
            r.left@ == add_q(y@, x@),
            r.right@ == sub_q(y@, x@),
    {
        TankSides {
            left: Ratio { raw: fix_add(y.raw, x.raw) },
            right: Ratio { raw: fix_sub(y.raw, x.raw) },
        }
    }

    /// Arm a closed-loop straight drive over `distance`: both sides aim at
    /// the same rotation goal, the velocity stages start at rest.  The
    /// caller tares both side encoders first, then cycles the motion once
    /// per control period.
    pub fn drive_distance(&self, distance: Length, now: Time) -> (r: TankMotion)
        ensures
            r.left_position@ == (PositionModel {
                integral: 0,
                previous_error: Option::None,
                previous_time: now@,
                target: self.distance_goal(distance@),
                kp: self.distance_gains.proportional@,
                ki: self.distance_gains.integral@,
                kd: self.distance_gains.derivative@,
                threshold: self.position_threshold@,
            }),
            r.right_position@ == r.left_position@,
            r.left_velocity@ == (VelocityModel {
                previous_error: Option::None,
                previous_previous_error: Option::None,
                previous_output: 0,
                previous_time: now@,
                target: 0,
                kp: self.left_velocity_gains.proportional@,
                ki: self.left_velocity_gains.integral@,
                kd: self.left_velocity_gains.derivative@,
                threshold: self.velocity_threshold@,
            }),
            r.right_velocity@ == (VelocityModel {
                previous_error: Option::None,
                previous_previous_error: Option::None,
                previous_output: 0,
                previous_time: now@,
                target: 0,
                kp: self.right_velocity_gains.proportional@,
                ki: self.right_velocity_gains.integral@,
                kd: self.right_velocity_gains.derivative@,
                threshold: self.velocity_threshold@,
            }),
    {
        let wheel_rotation_goal: i64 = fix_div(distance.raw, self.wheel_radius().raw);
        let motor_rotation_goal: Angle = Angle {
            raw: fix_div(wheel_rotation_goal, self.drive_ratio.raw),
        };
        TankMotion {
            left_position: PositionController::new(
                motor_rotation_goal,
                self.distance_gains,
                self.position_threshold,
                now,
            ),
            right_position: PositionController::new(
                motor_rotation_goal,
                self.distance_gains,
                self.position_threshold,
                now,
            ),
            left_velocity: VelocityController::new(
                AngularVelocity { raw: 0 },
                self.left_velocity_gains,
                self.velocity_threshold,
                now,
            ),
            right_velocity: VelocityController::new(
                AngularVelocity { raw: 0 },
                self.right_velocity_gains,
                self.velocity_threshold,
                now,
            ),
        }
    }

    /// Arm a closed-loop point turn over `angle`: the sides aim at opposite
    /// rotation goals.  The caller tares both side encoders first, then
    /// cycles the motion once per control period.
    pub fn rotate_angle(&self, angle: Angle, now: Time) -> (r: TankMotion)
        ensures
            r.left_position@ == (PositionModel {
                integral: 0,
                previous_error: Option::None,
                previous_time: now@,
                target: self.rotation_goal(angle@),
                kp: self.turn_gains.proportional@,
                ki: self.turn_gains.integral@,
                kd: self.turn_gains.derivative@,
                threshold: self.position_threshold@,
            }),
            r.right_position@ == (PositionModel {
                target: neg_q(self.rotation_goal(angle@)),
                ..r.left_position@
            }),
            r.left_velocity@ == (VelocityModel {
                previous_error: Option::None,
                previous_previous_error: Option::None,
                previous_output: 0,
                previous_time: now@,
                target: 0,
                kp: self.left_velocity_gains.proportional@,
                ki: self.left_velocity_gains.integral@,
                kd: self.left_velocity_gains.derivative@,
                threshold: self.velocity_threshold@,
            }),
            r.right_velocity@ == (VelocityModel {
                previous_error: Option::None,
                previous_previous_error: Option::None,
                previous_output: 0,
                previous_time: now@,
                target: 0,
                kp: self.right_velocity_gains.proportional@,
                ki: self.right_velocity_gains.integral@,
                kd: self.right_velocity_gains.derivative@,
                threshold: self.velocity_threshold@,
            }),
    {
        let wheel_rotation_goal: i64 = fix_div(
            fix_half(fix_mul(angle.raw, self.track_width.raw)),
            self.wheel_radius().raw,
        );
        let motor_rotation_goal: i64 = fix_div(wheel_rotation_goal, self.drive_ratio.raw);
        TankMotion {
            left_position: PositionController::new(
                Angle { raw: motor_rotation_goal },
                self.turn_gains,
                self.position_threshold,
                now,
            ),
            right_position: PositionController::new(
                Angle { raw: fix_neg(motor_rotation_goal) },
                self.turn_gains,
                self.position_threshold,
                now,
            ),
            left_velocity: VelocityController::new(
                AngularVelocity { raw: 0 },
                self.left_velocity_gains,
                self.velocity_threshold,
                now,
            ),
            right_velocity: VelocityController::new(
                AngularVelocity { raw: 0 },
                self.right_velocity_gains,
                self.velocity_threshold,
                now,
            ),
        }
    }
}

impl TankMotion {
    /// One cascaded control cycle.  When both sides' position controllers
    /// sit inside their completion thresholds the motion is complete and
    /// untouched (the caller rests the motors); otherwise each side's
    /// position controller turns its encoder reading into a velocity
    /// target, and its velocity controller turns the measured velocity
    /// into the voltage to command.
    pub fn cycle(
        &mut self,
        left_pos: Angle,
        right_pos: Angle,
        left_vel: AngularVelocity,
        right_vel: AngularVelocity,
        now: Time,
    ) -> (r: TankMotionStep)
        ensures
            ({
                let done = old(self).left_position@.complete(left_pos@)
                    && old(self).right_position@.complete(right_pos@);
                if done {
                    r == TankMotionStep::Complete && *final(self) == *old(self)
                } else {
                    let lp = old(self).left_position@;
                    let rp = old(self).right_position@;
                    let lv = (VelocityModel {
                        target: lp.output(left_pos@, now@),
                        ..old(self).left_velocity@
                    });
                    let rv = (VelocityModel {
                        target: rp.output(right_pos@, now@),
                        ..old(self).right_velocity@
                    });
                    &&& final(self).left_position@ == lp.cycled(left_pos@, now@)
                    &&& final(self).right_position@ == rp.cycled(right_pos@, now@)
                    &&& final(self).left_velocity@ == lv.cycled(left_vel@, now@)
                    &&& final(self).right_velocity@ == rv.cycled(right_vel@, now@)
                    &&& ({
                        let lo = lv.output(left_vel@, now@);
                        let ro = rv.output(right_vel@, now@);
                        r == TankMotionStep::Drive(
                            ElectricPotential { raw: lo as i64 },
                            ElectricPotential { raw: ro as i64 },
                        )
                    })
                }
            }),
    {
        if self.left_position.is_complete(left_pos) && self.right_position.is_complete(right_pos) {
            return TankMotionStep::Complete;
        }
        let left_motor_speed: AngularVelocity = self.left_position.cycle(left_pos, now);
        let right_motor_speed: AngularVelocity = self.right_position.cycle(right_pos, now);
        self.left_velocity.set_target(left_motor_speed);
        self.right_velocity.set_target(right_motor_speed);
        let left_motor_voltage: ElectricPotential = self.left_velocity.cycle(left_vel, now);
        let right_motor_voltage: ElectricPotential = self.right_velocity.cycle(right_vel, now);
        TankMotionStep::Drive(left_motor_voltage, right_motor_voltage)
    }
}

} // verus!
