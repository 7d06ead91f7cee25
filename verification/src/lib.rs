//! Motion-control core for a wheeled robot.
//!
//! All quantities are fixed-point values: an `i64` raw count of micro base
//! units (one millionth of a radian, of a length unit, and so on).  Every
//! arithmetic step saturates at a fixed magnitude bound instead of wrapping,
//! so the whole pipeline is total and free of overflow.
#![allow(unused_imports)]

use vstd::prelude::*;

pub mod coordinates;
pub mod math;
pub mod odometry;
pub mod pid;
pub mod pure_pursuit;
pub mod tank_drive;
pub mod units;
pub mod x_drive;

verus! {

/// Gain triple for one controlled axis: the proportional, integral and
/// derivative coefficients of a feedback controller, as dimensionless
/// fixed-point ratios.
#[derive(Clone, Copy, PartialEq, Eq, Structural, Debug)]
pub struct Gains {
    pub proportional: crate::units::Ratio,
    pub integral: crate::units::Ratio,
    pub derivative: crate::units::Ratio,
}

} // verus!
