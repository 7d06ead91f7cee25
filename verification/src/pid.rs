//! Single-axis feedback controllers.  The position controller runs a
//! standard PID on an angular error with true elapsed-time integration and
//! differentiation; the velocity controller runs the incremental form, in
//! which the proportional and derivative channels act on error differences,
//! making its accumulated output bumpless across target changes.  A cycle
//! with no elapsed time skips integration and differentiation entirely, so
//! no division by a zero duration can occur.

use vstd::prelude::*;
use crate::math::{
    abs_int, abs_q, add_q, sub_q, mul_q, div_q, clamp_raw, fix_abs, fix_add, fix_sub, fix_mul,
    fix_div, fix_mul_int, lemma_fix_zero, MAX_RAW, SCALE,
};
use crate::units::{Angle, AngularVelocity, ElectricPotential, Time};
use crate::Gains;

verus! {

/// PID controller that turns an angular error into a velocity command.
pub struct PositionController {
    pub integral: i64,
    pub previous_error: Option<Angle>,
    pub previous_time: Time,
    pub target: Angle,
    pub gains: Gains,
    pub completion_threshold: Angle,
}

/// Mathematical image of the position controller.
pub ghost struct PositionModel {
    pub integral: int,
    pub previous_error: Option<int>,
    pub previous_time: int,
    pub target: int,
    pub kp: int,
    pub ki: int,
    pub kd: int,
    pub threshold: int,
}

impl View for PositionController {
    type V = PositionModel;

    open spec fn view(&self) -> PositionModel {
        PositionModel {
            integral: self.integral as int,
            previous_error: match self.previous_error {
                Option::Some(p) => Option::Some(p@),
                Option::None => Option::None,
            },
            previous_time: self.previous_time@,
            target: self.target@,
            kp: self.gains.proportional@,
            ki: self.gains.integral@,
            kd: self.gains.derivative@,
            threshold: self.completion_threshold@,
        }
    }
}

impl PositionModel {
    /// The control error a reading leaves toward the target.
    pub open spec fn error(self, current: int) -> int {
        sub_q(self.target, current)
    }

    /// The integral accumulator after a cycle: grown by error times elapsed
    /// time, untouched when no time has elapsed.
    pub open spec fn next_integral(self, current: int, now: int) -> int {
        let dt = sub_q(now, self.previous_time);
        if dt > 0 {
            add_q(self.integral, mul_q(self.error(current), dt))
        } else {
            self.integral
        }
    }

    /// The velocity command of one cycle: the sum of the proportional,
    /// integral and derivative channels.  On the first cycle the previous
    /// error defaults to the current one, so the derivative starts at zero.
    pub open spec fn output(self, current: int, now: int) -> int {
        let e = self.error(current);
        let dt = sub_q(now, self.previous_time);
        let pe = match self.previous_error {
            Option::Some(p) => p,
            Option::None => e,
        };
        let derivative = if dt > 0 {
            div_q(sub_q(e, pe), dt)
        } else {
            0
        };
        add_q(
            add_q(mul_q(self.kp, e), mul_q(self.ki, self.next_integral(current, now))),
            mul_q(self.kd, derivative),
        )
    }

    /// The controller state after a cycle.
    pub open spec fn cycled(self, current: int, now: int) -> PositionModel {
        PositionModel {
            integral: self.next_integral(current, now),
            previous_error: Option::Some(self.error(current)),
            previous_time: now,
            ..self
        }
    }

    /// Completion: the error magnitude is inside the threshold.
    pub open spec fn complete(self, current: int) -> bool {
        abs_q(self.error(current)) <= self.threshold
    }
}

impl PositionController {
    /// A fresh controller aiming at `target`, with its clock started at
    /// `now`.
    pub fn new(target: Angle, gains: Gains, completion_threshold: Angle, now: Time) -> (r: Self)
        ensures
            r@ == (PositionModel {
                integral: 0,
                previous_error: Option::None,
                previous_time: now@,
                target: target@,
                kp: gains.proportional@,
                ki: gains.integral@,
                kd: gains.derivative@,
                threshold: completion_threshold@,
            }),
    {
        PositionController {
            integral: 0,
            previous_error: Option::None,
            previous_time: now,
            target,
            gains,
            completion_threshold,
        }
    }

    /// Whether the error a reading leaves is inside the completion
    /// threshold.
    pub fn is_complete(&self, current: Angle) -> (r: bool)
        ensures
            r == self@.complete(current@),
    {
        fix_abs(fix_sub(self.target.raw, current.raw)) <= self.completion_threshold.raw
    }

    /// Aim the controller at a new target.
    pub fn set_target(&mut self, target: Angle)
        ensures
            final(self)@ == (PositionModel { target: target@, ..old(self)@ }),
    {
        self.target = target;
    }

    /// Run one PID cycle: returns the velocity the motors should run at.
    pub fn cycle(&mut self, current: Angle, now: Time) -> (r: AngularVelocity)
        ensures
            final(self)@ == old(self)@.cycled(current@, now@),
            r@ == old(self)@.output(current@, now@),
    {
        let error: i64 = fix_sub(self.target.raw, current.raw);
        let dt: i64 = fix_sub(now.raw, self.previous_time.raw);
        if dt > 0 {
            self.integral = fix_add(self.integral, fix_mul(error, dt));
        }
        let previous_error: i64 = match self.previous_error {
            Option::Some(p) => p.raw,
            Option::None => error,
        };
        let derivative: i64 = if dt > 0 {
            fix_div(fix_sub(error, previous_error), dt)
        } else {
            0
        };
        self.previous_error = Option::Some(Angle { raw: error });
        self.previous_time = now;
        let proportional_channel: i64 = fix_mul(self.gains.proportional.raw, error);
        let integral_channel: i64 = fix_mul(self.gains.integral.raw, self.integral);
        let derivative_channel: i64 = fix_mul(self.gains.derivative.raw, derivative);
        AngularVelocity {
            raw: fix_add(fix_add(proportional_channel, integral_channel), derivative_channel),
        }
    }
}

/// Incremental-form controller that turns a velocity error into a voltage
/// command.
pub struct VelocityController {
    pub previous_error: Option<AngularVelocity>,
    pub previous_previous_error: Option<AngularVelocity>,
    pub previous_output: i64,
    pub previous_time: Time,
    pub target: AngularVelocity,
    pub gains: Gains,
    pub target_threshold: AngularVelocity,
}

/// Mathematical image of the velocity controller.
pub ghost struct VelocityModel {
    pub previous_error: Option<int>,
    pub previous_previous_error: Option<int>,
    pub previous_output: int,
    pub previous_time: int,
    pub target: int,
    pub kp: int,
    pub ki: int,
    pub kd: int,
    pub threshold: int,
}

impl View for VelocityController {
    type V = VelocityModel;

    open spec fn view(&self) -> VelocityModel {
        VelocityModel {
            previous_error: match self.previous_error {
                Option::Some(p) => Option::Some(p@),
                Option::None => Option::None,
            },
            previous_previous_error: match self.previous_previous_error {
                Option::Some(p) => Option::Some(p@),
                Option::None => Option::None,
            },
            previous_output: self.previous_output as int,
            previous_time: self.previous_time@,
            target: self.target@,
            kp: self.gains.proportional@,
            ki: self.gains.integral@,
            kd: self.gains.derivative@,
            threshold: self.target_threshold@,
        }
    }
}

impl VelocityModel {
    /// The control error a reading leaves toward the target.
    pub open spec fn error(self, current: int) -> int {
        sub_q(self.target, current)
    }

    /// The previous error, defaulting to the current one on the first
    /// cycle so that no startup spike enters the difference channels.
    pub open spec fn prev_error_or(self, e: int) -> int {
        match self.previous_error {
            Option::Some(p) => p,
            Option::None => e,
        }
    }

    /// The error before the previous one, with the same first-cycle
    /// default.
    pub open spec fn prev_prev_error_or(self, e: int) -> int {
        match self.previous_previous_error {
            Option::Some(p) => p,
            Option::None => e,
        }
    }

    /// The voltage command of one cycle: the previous output plus the
    /// proportional channel on the error difference, the integral channel
    /// on error times elapsed time, and the derivative channel on the
    /// second error difference.  A cycle with no elapsed time contributes
    /// neither integral nor derivative.
    pub open spec fn output(self, current: int, now: int) -> int {
        let e = self.error(current);
        let pe = self.prev_error_or(e);
        let ppe = self.prev_prev_error_or(e);
        let dt = sub_q(now, self.previous_time);
        let delta_e = sub_q(e, pe);
        let integral = if dt > 0 {
            mul_q(e, dt)
        } else {
            0
        };
        let derivative = if dt > 0 {
            div_q(add_q(sub_q(e, clamp_raw(pe * 2)), ppe), dt)
        } else {
            0
        };
        add_q(
            add_q(
                add_q(self.previous_output, mul_q(self.kp, delta_e)),
                mul_q(self.ki, integral),
            ),
            mul_q(self.kd, derivative),
        )
    }

    /// The controller state after a cycle.
    pub open spec fn cycled(self, current: int, now: int) -> VelocityModel {
        let e = self.error(current);
        VelocityModel {
            previous_previous_error: Option::Some(self.prev_error_or(e)),
            previous_error: Option::Some(e),
            previous_output: self.output(current, now),
            previous_time: now,
            ..self
        }
    }

    /// At speed: the error magnitude is inside the threshold.
    pub open spec fn at_speed(self, current: int) -> bool {
        abs_q(self.error(current)) <= self.threshold
    }
}

impl VelocityController {
    /// A fresh controller aiming at `target`, with its clock started at
    /// `now`.
    pub fn new(target: AngularVelocity, gains: Gains, target_threshold: AngularVelocity, now: Time) -> (r: Self)
        ensures
            r@ == (VelocityModel {
                previous_error: Option::None,
                previous_previous_error: Option::None,
                previous_output: 0,
                previous_time: now@,
                target: target@,
                kp: gains.proportional@,
                ki: gains.integral@,
                kd: gains.derivative@,
                threshold: target_threshold@,
            }),
    {
        VelocityController {
            previous_error: Option::None,
            previous_previous_error: Option::None,
            previous_output: 0,
            previous_time: now,
            target,
            gains,
            target_threshold,
        }
    }

    /// Whether the error a reading leaves is inside the speed threshold.
    pub fn is_at_speed(&self, current: AngularVelocity) -> (r: bool)
        ensures
            r == self@.at_speed(current@),
    {
        fix_abs(fix_sub(self.target.raw, current.raw)) <= self.target_threshold.raw
    }

    /// Aim the controller at a new target.
    pub fn set_target(&mut self, target: AngularVelocity)
        ensures
            final(self)@ == (VelocityModel { target: target@, ..old(self)@ }),
    {
        self.target = target;
    }

    /// Run one incremental cycle: returns the voltage the motors should be
    /// driven with.
    pub fn cycle(&mut self, current: AngularVelocity, now: Time) -> (r: ElectricPotential)
        ensures
            final(self)@ == old(self)@.cycled(current@, now@),
            r@ == old(self)@.output(current@, now@),
    {
        let error: i64 = fix_sub(self.target.raw, current.raw);
        let previous_error: i64 = match self.previous_error {
            Option::Some(p) => p.raw,
            Option::None => error,
        };
        let previous_previous_error: i64 = match self.previous_previous_error {
            Option::Some(p) => p.raw,
            Option::None => error,
        };
        let dt: i64 = fix_sub(now.raw, self.previous_time.raw);
        let delta_error: i64 = fix_sub(error, previous_error);
        let integral: i64 = if dt > 0 {
            fix_mul(error, dt)
        } else {
            0
        };
        let derivative: i64 = if dt > 0 {
            fix_div(
                fix_add(fix_sub(error, fix_mul_int(previous_error, 2)), previous_previous_error),
                dt,
            )
        } else {
            0
        };
        self.previous_previous_error = Option::Some(AngularVelocity { raw: previous_error });
        self.previous_error = Option::Some(AngularVelocity { raw: error });
        self.previous_time = now;
        let proportional_channel: i64 = fix_mul(self.gains.proportional.raw, delta_error);
        let integral_channel: i64 = fix_mul(self.gains.integral.raw, integral);
        let derivative_channel: i64 = fix_mul(self.gains.derivative.raw, derivative);
        let output: i64 = fix_add(
            fix_add(
                fix_add(self.previous_output, proportional_channel),
                integral_channel,
            ),
            derivative_channel,
        );
        self.previous_output = output;
        ElectricPotential { raw: output }
    }
}

} // verus!

verus! {

/// With zero integral and derivative gains, a position-controller cycle
/// outputs exactly the proportional channel, so the command's sign follows
/// the error's sign (the command is zero only when the scaled product
/// truncates to zero, and is strictly positive once the product reaches
/// one scale unit).
pub proof fn lemma_proportional_sign(m: PositionModel, current: int, now: int)
    requires
        m.ki == 0,
        m.kd == 0,
    ensures
        m.output(current, now) == mul_q(m.kp, m.error(current)),
        m.kp >= 0 && m.error(current) >= 0 ==> m.output(current, now) >= 0,
        m.kp >= 0 && m.error(current) <= 0 ==> m.output(current, now) <= 0,
        m.kp * m.error(current) >= SCALE as int ==> m.output(current, now) >= 1,
{
    let e = m.error(current);
    let dt = sub_q(now, m.previous_time);
    let pe = match m.previous_error {
        Option::Some(p) => p,
        Option::None => e,
    };
    let derivative = if dt > 0 {
        div_q(sub_q(e, pe), dt)
    } else {
        0
    };
    lemma_fix_zero(m.next_integral(current, now));
    lemma_fix_zero(derivative);
    if m.kp >= 0 && e >= 0 {
        assert(m.kp * e >= 0) by (nonlinear_arith)
            requires
                m.kp >= 0,
                e >= 0,
        ;
    }
    if m.kp >= 0 && e <= 0 {
        assert(m.kp * e <= 0) by (nonlinear_arith)
            requires
                m.kp >= 0,
                e <= 0,
        ;
    }
    if m.kp * e >= SCALE as int {
        vstd::arithmetic::div_mod::lemma_div_is_ordered(SCALE as int, m.kp * e, SCALE as int);
    }
}

/// Bumplessness of the velocity controller: a second cycle on the same
/// reading with no target change moves the accumulated output by the
/// integral channel alone — the proportional channel vanishes because the
/// error difference is zero, and the derivative channel vanishes because
/// the stored error history is level.  With no elapsed time between the
/// two cycles the output does not move at all.
pub proof fn lemma_velocity_bumpless(m: VelocityModel, current: int, t1: int, t2: int)
    requires
        m.previous_error is None || m.previous_error == Option::Some(
            sub_q(m.target, current),
        ),
        2 * abs_int(sub_q(m.target, current)) <= MAX_RAW as int,
    ensures
        ({
            let e = sub_q(m.target, current);
            let m1 = m.cycled(current, t1);
            let dt2 = sub_q(t2, t1);
            let ichan = if dt2 > 0 {
                mul_q(m.ki, mul_q(e, dt2))
            } else {
                0
            };
            &&& m1.output(current, t2) == add_q(m1.previous_output, ichan)
            &&& dt2 <= 0 ==> m1.output(current, t2) == m1.previous_output
        }),
{
    let e = sub_q(m.target, current);
    let m1 = m.cycled(current, t1);
    let dt2 = sub_q(t2, t1);
    lemma_fix_zero(m.kp);
    lemma_fix_zero(m.kd);
    lemma_fix_zero(dt2);
    if dt2 <= 0 {
        lemma_fix_zero(m.ki);
    }
}

} // verus!
