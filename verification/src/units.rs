//! Dimensioned fixed-point quantity types.  Each wraps a raw `i64` count of
//! micro base units (micro length units, micro radians, micro radians per
//! second, micro volts, micro seconds, millionths for ratios) and views as
//! the mathematical integer it holds.

use vstd::prelude::*;
use crate::math::{
    atan2_q, clamp_raw, div_trunc, mul_q, scale_q, sqrt_q, sin_q, cos_q, tan_q, asin_q, acos_q,
    atan_q, fix_atan2, fix_sqrt, fix_sin, fix_cos, fix_tan, fix_asin, fix_acos, fix_atan,
    fix_mul, fix_mul_int, fix_div_int, Real, RealAngle, RealRatio, RealSquare, PI_RAW,
    TWO_PI_RAW, SCALE,
};

verus! {

/// A distance, in micro base-length units.
#[derive(Clone, Copy, PartialEq, Eq, Structural, Debug)]
pub struct Length {
    pub raw: i64,
}

/// An angle, in micro radians.  Headings accumulate without wrapping;
/// callers normalize when they need a bounded angular difference.
#[derive(Clone, Copy, PartialEq, Eq, Structural, Debug)]
pub struct Angle {
    pub raw: i64,
}

/// A dimensionless ratio, in millionths.
#[derive(Clone, Copy, PartialEq, Eq, Structural, Debug)]
pub struct Ratio {
    pub raw: i64,
}

/// An angular velocity, in micro radians per second.
#[derive(Clone, Copy, PartialEq, Eq, Structural, Debug)]
pub struct AngularVelocity {
    pub raw: i64,
}

/// An electric potential, in micro volts.
#[derive(Clone, Copy, PartialEq, Eq, Structural, Debug)]
pub struct ElectricPotential {
    pub raw: i64,
}

/// A point in time, in micro seconds since an arbitrary origin.
#[derive(Clone, Copy, PartialEq, Eq, Structural, Debug)]
pub struct Time {
    pub raw: i64,
}

impl View for Length {
    type V = int;

    open spec fn view(&self) -> int {
        self.raw as int
    }
}

impl View for Angle {
    type V = int;

    open spec fn view(&self) -> int {
        self.raw as int
    }
}

impl View for Ratio {
    type V = int;

    open spec fn view(&self) -> int {
        self.raw as int
    }
}

impl View for AngularVelocity {
    type V = int;

    open spec fn view(&self) -> int {
        self.raw as int
    }
}

impl View for ElectricPotential {
    type V = int;

    open spec fn view(&self) -> int {
        self.raw as int
    }
}

impl View for Time {
    type V = int;

    open spec fn view(&self) -> int {
        self.raw as int
    }
}

/// Micro degrees converted to micro radians.
pub open spec fn deg_to_rad_q(d: int) -> int {
    clamp_raw(div_trunc(mul_q(d, PI_RAW as int), 180))
}

/// Micro revolutions per minute converted to micro radians per second.
pub open spec fn rpm_to_rad_per_sec_q(v: int) -> int {
    clamp_raw(div_trunc(mul_q(v, TWO_PI_RAW as int), 60))
}

impl Length {
    /// Wrap a raw micro-unit count.
    pub fn from_raw(raw: i64) -> (r: Self)
        ensures
            r@ == raw as int,
    {
        Length { raw }
    }

    /// A whole number of base length units.
    pub fn from_units(v: i64) -> (r: Self)
        ensures
            r@ == scale_q(v as int),
    {
        Length { raw: fix_mul_int(v, SCALE) }
    }
}

impl Angle {
    /// Wrap a raw count of micro radians.
    pub fn from_raw(raw: i64) -> (r: Self)
        ensures
            r@ == raw as int,
    {
        Angle { raw }
    }

    /// A whole number of radians.
    pub fn from_units(v: i64) -> (r: Self)
        ensures
            r@ == scale_q(v as int),
    {
        Angle { raw: fix_mul_int(v, SCALE) }
    }

    /// Convert micro degrees to an angle in micro radians.
    pub fn from_degrees(micro_degrees: i64) -> (r: Self)
        ensures
            r@ == deg_to_rad_q(micro_degrees as int),
    {
        Angle { raw: fix_div_int(fix_mul(micro_degrees, PI_RAW), 180) }
    }
}

impl Ratio {
    /// Wrap a raw count of millionths.
    pub fn from_raw(raw: i64) -> (r: Self)
        ensures
            r@ == raw as int,
    {
        Ratio { raw }
    }

    /// A whole-number ratio.
    pub fn from_units(v: i64) -> (r: Self)
        ensures
            r@ == scale_q(v as int),
    {
        Ratio { raw: fix_mul_int(v, SCALE) }
    }
}

impl AngularVelocity {
    /// Wrap a raw count of micro radians per second.
    pub fn from_raw(raw: i64) -> (r: Self)
        ensures
            r@ == raw as int,
    {
        AngularVelocity { raw }
    }

    /// A whole number of radians per second.
    pub fn from_units(v: i64) -> (r: Self)
        ensures
            r@ == scale_q(v as int),
    {
        AngularVelocity { raw: fix_mul_int(v, SCALE) }
    }

    /// Convert micro revolutions per minute to micro radians per second.
    pub fn from_rpm(micro_rpm: i64) -> (r: Self)
        ensures
            r@ == rpm_to_rad_per_sec_q(micro_rpm as int),
    {
        AngularVelocity { raw: fix_div_int(fix_mul(micro_rpm, TWO_PI_RAW), 60) }
    }
}

impl ElectricPotential {
    /// Wrap a raw count of micro volts.
    pub fn from_raw(raw: i64) -> (r: Self)
        ensures
            r@ == raw as int,
    {
        ElectricPotential { raw }
    }
}

impl Time {
    /// Wrap a raw count of micro seconds.
    pub fn from_raw(raw: i64) -> (r: Self)
        ensures
            r@ == raw as int,
    {
        Time { raw }
    }

    /// A whole number of milliseconds.
    pub fn from_millis(ms: i64) -> (r: Self)
        ensures
            r@ == clamp_raw(ms as int * 1000),
    {
        Time { raw: fix_mul_int(ms, 1000) }
    }
}

impl Real for Length {
    type Angle = Angle;

    fn atan2(self, x: Self) -> (r: Angle) {
        Angle { raw: fix_atan2(self.raw, x.raw) }
    }
}

impl Real for Ratio {
    type Angle = Angle;

    fn atan2(self, x: Self) -> (r: Angle) {
        Angle { raw: fix_atan2(self.raw, x.raw) }
    }
}

impl RealSquare for Ratio {
    type Root = Ratio;

    fn sqrt(self) -> (r: Ratio) {
        Ratio { raw: fix_sqrt(self.raw) }
    }
}

impl RealAngle for Angle {
    type Ratio = Ratio;

    fn sin(self) -> (r: Ratio) {
        Ratio { raw: fix_sin(self.raw) }
    }

    fn cos(self) -> (r: Ratio) {
        Ratio { raw: fix_cos(self.raw) }
    }

    fn tan(self) -> (r: Ratio) {
        Ratio { raw: fix_tan(self.raw) }
    }
}

impl RealRatio for Ratio {
    fn asin(self) -> (r: Angle) {
        Angle { raw: fix_asin(self.raw) }
    }

    fn acos(self) -> (r: Angle) {
        Angle { raw: fix_acos(self.raw) }
    }

    fn atan(self) -> (r: Angle) {
        Angle { raw: fix_atan(self.raw) }
    }
}

} // verus!
