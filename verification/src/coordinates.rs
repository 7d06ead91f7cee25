//! Planar coordinates and poses, with the two geometric queries the path
//! follower needs: straight-line distance and compass bearing.

use vstd::prelude::*;
use crate::math::{
    add_q, sub_q, mul_q, sqrt_q, atan2_q, fix_add, fix_sub, fix_mul, fix_sqrt, fix_atan2,
    HALF_PI_RAW,
};
use crate::units::{Angle, Length};

verus! {

/// A planar position without heading; paths are sequences of these.
#[derive(Clone, Copy, PartialEq, Eq, Structural, Debug)]
pub struct Coordinates {
    pub x: Length,
    pub y: Length,
}

/// A full pose: planar coordinates plus the accumulated heading.
#[derive(Clone, Copy, PartialEq, Eq, Structural, Debug)]
pub struct Position(pub Coordinates, pub Angle);

/// Straight-line distance between two points, in micro length units.
pub open spec fn dist_q(ax: int, ay: int, bx: int, by: int) -> int {
    let dx = sub_q(ax, bx);
    let dy = sub_q(ay, by);
    sqrt_q(add_q(mul_q(dx, dx), mul_q(dy, dy)))
}

/// Compass bearing from one point toward another, in micro radians:
/// measured from the positive y axis, a quarter turn minus the
/// mathematical arctangent of the displacement.
pub open spec fn bearing_q(ax: int, ay: int, bx: int, by: int) -> int {
    let dx = sub_q(bx, ax);
    let dy = sub_q(by, ay);
    sub_q(HALF_PI_RAW as int, atan2_q(dy, dx))
}

impl Position {
    /// Assemble a pose from its parts.
    pub fn new(x: Length, y: Length, heading: Angle) -> (r: Self)
        ensures
            r.0.x == x,
            r.0.y == y,
            r.1 == heading,
    {
        Position(Coordinates { x, y }, heading)
    }
}

impl Coordinates {
    /// Assemble a point from its parts.
    pub fn new(x: Length, y: Length) -> (r: Self)
        ensures
            r.x == x,
            r.y == y,
    {
        Coordinates { x, y }
    }

    /// Straight-line distance to another point.
    pub fn distance_to(&self, other: &Self) -> (r: Length)
        ensures
            r@ == dist_q(self.x@, self.y@, other.x@, other.y@),
    {
        let dx: i64 = fix_sub(self.x.raw, other.x.raw);
        let dy: i64 = fix_sub(self.y.raw, other.y.raw);
        Length { raw: fix_sqrt(fix_add(fix_mul(dx, dx), fix_mul(dy, dy))) }
    }

    /// Compass bearing toward another point.
    pub fn angle_to(&self, other: &Self) -> (r: Angle)
        ensures
            r@ == bearing_q(self.x@, self.y@, other.x@, other.y@),
    {
        let dx: i64 = fix_sub(other.x.raw, self.x.raw);
        let dy: i64 = fix_sub(other.y.raw, self.y.raw);
        Angle { raw: fix_sub(HALF_PI_RAW, fix_atan2(dy, dx)) }
    }
}

} // verus!
