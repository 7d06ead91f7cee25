//! Holonomic ("X") drivetrain kinematics: a stateless per-cycle mapping
//! from one commanded motion (lateral, forward, rotational) to the four
//! wheel ratios.  No clamping is performed by this layer.

use vstd::prelude::*;
use crate::math::{add_q, sub_q, half_q, fix_add, fix_sub, fix_half};
use crate::units::{Length, Ratio};

verus! {

/// The four per-wheel command ratios of one holonomic drive call.
#[derive(Clone, Copy, PartialEq, Eq, Structural, Debug)]
pub struct XDriveRatios {
    pub front_left: Ratio,
    pub front_right: Ratio,
    pub back_left: Ratio,
    pub back_right: Ratio,
}

/// Holonomic drivetrain geometry.  The caller owns the four motors and
/// commands them with the ratios a `drive` call returns.
pub struct XDrive {
    pub drive_ratio: Ratio,
    pub wheel_radius: Length,
    pub turn_radius: Length,
}

impl XDrive {
    /// Record the drivetrain geometry: radii are half the given diameters.
    pub fn new(drive_ratio: Ratio, wheel_diameter: Length, turn_diameter: Length) -> (r: Self)
        ensures
            r.drive_ratio == drive_ratio,
            r.wheel_radius@ == half_q(wheel_diameter@),
            r.turn_radius@ == half_q(turn_diameter@),
    {
        XDrive {
            drive_ratio,
            wheel_radius: Length { raw: fix_half(wheel_diameter.raw) },
            turn_radius: Length { raw: fix_half(turn_diameter.raw) },
        }
    }

    /// The standard four-wheel X mapping: forward plus lateral plus
    /// rotation on the front left, and the sign-flipped combinations on
    /// the other three wheels.
    pub fn drive(&self, x: Ratio, y: Ratio, rotation: Ratio) -> (r: XDriveRatios)
        ensures
            r.front_left@ == add_q(add_q(y@, x@), rotation@),
            r.front_right@ == sub_q(sub_q(y@, x@), rotation@),
            r.back_left@ == add_q(sub_q(y@, x@), rotation@),
            r.back_right@ == sub_q(add_q(y@, x@), rotation@),
    {
        XDriveRatios {
            front_left: Ratio { raw: fix_add(fix_add(y.raw, x.raw), rotation.raw) },
            front_right: Ratio { raw: fix_sub(fix_sub(y.raw, x.raw), rotation.raw) },
            back_left: Ratio { raw: fix_add(fix_sub(y.raw, x.raw), rotation.raw) },
            back_right: Ratio { raw: fix_sub(fix_add(y.raw, x.raw), rotation.raw) },
        }
    }
}

} // verus!
