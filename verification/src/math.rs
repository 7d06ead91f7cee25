//! Saturating fixed-point arithmetic on raw `i64` counts of micro units,
//! together with the trigonometric and square-root routines the motion
//! pipeline needs.  Each executable routine is proved equal to a spec-level
//! model function over `int`, so every caller can reason about exact values.

use vstd::prelude::*;

verus! {

/// Number of raw counts in one base unit: raw values are micro units.
pub const SCALE: i64 = 1_000_000;

/// Largest raw magnitude a fixed-point value may take; arithmetic saturates
/// here instead of overflowing.
pub const MAX_RAW: i64 = 1_000_000_000_000_000_000;

/// The half turn, in micro radians.
pub const PI_RAW: i64 = 3_141_593;

/// The full turn, in micro radians (exactly twice `PI_RAW`).
pub const TWO_PI_RAW: i64 = 6_283_186;

/// The quarter turn, in micro radians.
pub const HALF_PI_RAW: i64 = 1_570_796;

/// The eighth turn, in micro radians.
pub const QUARTER_PI_RAW: i64 = 785_398;

/// Coefficient of the quadratic arctangent approximation, in micro units.
pub const ATAN_K_RAW: i64 = 273_000;

/// Mathematical absolute value.
pub open spec fn abs_int(a: int) -> int {
    if a >= 0 {
        a
    } else {
        -a
    }
}

/// Saturate a mathematical integer into the representable raw range.
pub open spec fn clamp_raw(v: int) -> int {
    if v > MAX_RAW as int {
        MAX_RAW as int
    } else if v < -(MAX_RAW as int) {
        -(MAX_RAW as int)
    } else {
        v
    }
}

/// Quotient rounded toward zero (sign-magnitude division).
pub open spec fn div_trunc(a: int, b: int) -> int
    recommends
        b != 0,
{
    if (a >= 0) == (b >= 0) {
        abs_int(a) / abs_int(b)
    } else {
        -(abs_int(a) / abs_int(b))
    }
}

/// Saturating sum of two raw values.
pub open spec fn add_q(a: int, b: int) -> int {
    clamp_raw(a + b)
}

/// Saturating difference of two raw values.
pub open spec fn sub_q(a: int, b: int) -> int {
    clamp_raw(a - b)
}

/// Saturating negation of a raw value.
pub open spec fn neg_q(a: int) -> int {
    clamp_raw(-a)
}

/// Saturating absolute value of a raw value.
pub open spec fn abs_q(a: int) -> int {
    clamp_raw(abs_int(a))
}

/// Saturating fixed-point product: the true product of two micro-unit
/// values, rescaled by `SCALE`, rounded toward zero.
pub open spec fn mul_q(a: int, b: int) -> int {
    clamp_raw(div_trunc(a * b, SCALE as int))
}

/// Saturating fixed-point quotient, rounded toward zero; division by zero
/// yields zero, so the function is total.
pub open spec fn div_q(a: int, b: int) -> int {
    if b == 0 {
        0
    } else {
        clamp_raw(div_trunc(a * (SCALE as int), b))
    }
}

/// Half of a raw value, rounded toward zero.
pub open spec fn half_q(a: int) -> int {
    clamp_raw(div_trunc(a, 2))
}

/// The magnitude of a product is the product of the magnitudes.
pub proof fn lemma_abs_mul(a: int, b: int)
    ensures
        abs_int(a * b) == abs_int(a) * abs_int(b),
{
    if a >= 0 {
        if b >= 0 {
            assert(a * b >= 0) by (nonlinear_arith)
                requires
                    a >= 0,
                    b >= 0,
            ;
        } else {
            assert(a * b <= 0 && a * (-b) == -(a * b)) by (nonlinear_arith)
                requires
                    a >= 0,
                    b <= 0,
            ;
        }
    } else {
        if b >= 0 {
            assert(a * b <= 0 && (-a) * b == -(a * b)) by (nonlinear_arith)
                requires
                    a <= 0,
                    b >= 0,
            ;
        } else {
            assert(a * b >= 0 && (-a) * (-b) == a * b) by (nonlinear_arith)
                requires
                    a <= 0,
                    b <= 0,
            ;
        }
    }
}

/// Magnitude of a raw value, exact even for the most negative `i64`.
pub(crate) fn abs_mag(a: i64) -> (r: u128)
    ensures
        r == abs_int(a as int),
{
    if a >= 0 {
        a as u128
    } else {
        let w: i128 = -(a as i128);
        w as u128
    }
}

/// Reattach a sign to a magnitude and saturate into the raw range.
pub(crate) fn clamp_signed(mag: u128, neg: bool) -> (r: i64)
    ensures
        r as int == clamp_raw(
            if neg {
                -(mag as int)
            } else {
                mag as int
            },
        ),
{
    if mag > MAX_RAW as u128 {
        if neg {
            -MAX_RAW
        } else {
            MAX_RAW
        }
    } else {
        if neg {
            -(mag as i64)
        } else {
            mag as i64
        }
    }
}

/// Saturating addition on raw values.
pub fn fix_add(a: i64, b: i64) -> (r: i64)
    ensures
        r as int == add_q(a as int, b as int),
{
    let s: i128 = a as i128 + b as i128;
    if s > MAX_RAW as i128 {
        MAX_RAW
    } else if s < -(MAX_RAW as i128) {
        -MAX_RAW
    } else {
        s as i64
    }
}

/// Saturating subtraction on raw values.
pub fn fix_sub(a: i64, b: i64) -> (r: i64)
    ensures
        r as int == sub_q(a as int, b as int),
{
    let s: i128 = a as i128 - b as i128;
    if s > MAX_RAW as i128 {
        MAX_RAW
    } else if s < -(MAX_RAW as i128) {
        -MAX_RAW
    } else {
        s as i64
    }
}

/// Saturating negation on raw values.
pub fn fix_neg(a: i64) -> (r: i64)
    ensures
        r as int == neg_q(a as int),
{
    let s: i128 = -(a as i128);
    if s > MAX_RAW as i128 {
        MAX_RAW
    } else if s < -(MAX_RAW as i128) {
        -MAX_RAW
    } else {
        s as i64
    }
}

/// Saturating absolute value on raw values.
pub fn fix_abs(a: i64) -> (r: i64)
    ensures
        r as int == abs_q(a as int),
{
    let m: u128 = abs_mag(a);
    clamp_signed(m, false)
}

/// Saturating fixed-point multiplication on raw values.
pub fn fix_mul(a: i64, b: i64) -> (r: i64)
    ensures
        r as int == mul_q(a as int, b as int),
{
    let neg: bool = (a < 0) != (b < 0);
    let ma: u128 = abs_mag(a);
    let mb: u128 = abs_mag(b);
    proof {
        vstd::arithmetic::mul::lemma_mul_upper_bound(
            ma as int,
            0x8000_0000_0000_0000,
            mb as int,
            0x8000_0000_0000_0000,
        );
    }
    let p: u128 = ma * mb;
    let q: u128 = p / (SCALE as u128);
    proof {
        lemma_abs_mul(a as int, b as int);
        if !neg {
            if a >= 0 {
                assert((a as int) * (b as int) >= 0) by (nonlinear_arith)
                    requires
                        a as int >= 0,
                        b as int >= 0,
                ;
            } else {
                assert((a as int) * (b as int) >= 0) by (nonlinear_arith)
                    requires
                        a as int <= 0,
                        b as int <= 0,
                ;
            }
        } else {
            if a < 0 {
                assert((a as int) * (b as int) <= 0) by (nonlinear_arith)
                    requires
                        a as int <= 0,
                        b as int >= 0,
                ;
            } else {
                assert((a as int) * (b as int) <= 0) by (nonlinear_arith)
                    requires
                        a as int >= 0,
                        b as int <= 0,
                ;
            }
        }
    }
    clamp_signed(q, neg)
}

/// Saturating fixed-point division on raw values; a zero divisor yields zero.
pub fn fix_div(a: i64, b: i64) -> (r: i64)
    ensures
        r as int == div_q(a as int, b as int),
{
    if b == 0 {
        return 0;
    }
    let neg: bool = (a < 0) != (b < 0);
    let ma: u128 = abs_mag(a);
    let mb: u128 = abs_mag(b);
    proof {
        vstd::arithmetic::mul::lemma_mul_upper_bound(
            ma as int,
            0x8000_0000_0000_0000,
            SCALE as int,
            SCALE as int,
        );
    }
    let p: u128 = ma * (SCALE as u128);
    let q: u128 = p / mb;
    proof {
        lemma_abs_mul(a as int, SCALE as int);
        if a < 0 {
            assert((a as int) * (SCALE as int) <= 0) by (nonlinear_arith)
                requires
                    a as int <= 0,
                    SCALE as int >= 0,
            ;
        } else {
            assert((a as int) * (SCALE as int) >= 0) by (nonlinear_arith)
                requires
                    a as int >= 0,
                    SCALE as int >= 0,
            ;
        }
    }
    clamp_signed(q, neg)
}

/// Half of a raw value, rounded toward zero, saturated.
pub fn fix_half(a: i64) -> (r: i64)
    ensures
        r as int == half_q(a as int),
{
    let neg: bool = a < 0;
    let q: u128 = abs_mag(a) / 2;
    clamp_signed(q, neg)
}

} // verus!

verus! {

/// `r` is the floor of the square root of `n`.
pub open spec fn is_sqrt(n: int, r: int) -> bool {
    0 <= r && r * r <= n && n < (r + 1) * (r + 1)
}

/// The floor of the square root of a nonnegative integer.
pub closed spec fn sqrt_floor(n: int) -> int {
    choose|r: int| is_sqrt(n, r)
}

/// For every nonnegative integer the floor square root exists and
/// `sqrt_floor` denotes it.
pub proof fn lemma_sqrt_floor(n: int)
    requires
        n >= 0,
    ensures
        is_sqrt(n, sqrt_floor(n)),
    decreases n,
{
    if n == 0 {
        assert(is_sqrt(0, 0));
    } else {
        lemma_sqrt_floor(n - 1);
        let r = sqrt_floor(n - 1);
        if n < (r + 1) * (r + 1) {
            assert(is_sqrt(n, r));
        } else {
            assert((r + 2) * (r + 2) > (r + 1) * (r + 1)) by (nonlinear_arith)
                requires
                    r >= 0,
            ;
            assert(is_sqrt(n, r + 1));
        }
    }
}

/// The floor square root is unique.
pub proof fn lemma_sqrt_unique(n: int, r1: int, r2: int)
    requires
        is_sqrt(n, r1),
        is_sqrt(n, r2),
    ensures
        r1 == r2,
{
    if r1 < r2 {
        assert((r1 + 1) * (r1 + 1) <= r2 * r2) by (nonlinear_arith)
            requires
                0 <= r1,
                r1 + 1 <= r2,
        ;
    }
    if r2 < r1 {
        assert((r2 + 1) * (r2 + 1) <= r1 * r1) by (nonlinear_arith)
            requires
                0 <= r2,
                r2 + 1 <= r1,
        ;
    }
}

/// Floor square root of an arbitrary magnitude, by bisection.
pub(crate) fn isqrt_mag(n: u128) -> (r: u128)
    ensures
        is_sqrt(n as int, r as int),
{
    let mut lo: u128 = 0;
    let mut hi: u128 = 0x1_0000_0000_0000_0000;
    while lo + 1 < hi
        invariant
            lo < hi,
            hi <= 0x1_0000_0000_0000_0000,
            (lo as int) * (lo as int) <= n as int,
            (n as int) < (hi as int) * (hi as int),
        decreases hi - lo,
    {
        let mid: u128 = lo + (hi - lo) / 2;
        proof {
            vstd::arithmetic::mul::lemma_mul_upper_bound(
                mid as int,
                0xFFFF_FFFF_FFFF_FFFF,
                mid as int,
                0xFFFF_FFFF_FFFF_FFFF,
            );
        }
        let sq: u128 = mid * mid;
        if sq <= n {
            lo = mid;
        } else {
            hi = mid;
        }
    }
    lo
}

/// Square root of a fixed-point value: the result is again in micro units,
/// so the radicand is rescaled by `SCALE` before the integer square root.
/// Nonpositive inputs yield zero, so the function is total.
pub open spec fn sqrt_q(v: int) -> int {
    if v <= 0 {
        0
    } else {
        sqrt_floor(clamp_raw(v) * (SCALE as int))
    }
}

/// Executable fixed-point square root.
pub fn fix_sqrt(v: i64) -> (r: i64)
    ensures
        r as int == sqrt_q(v as int),
{
    if v <= 0 {
        return 0;
    }
    let m: i64 = if v > MAX_RAW {
        MAX_RAW
    } else {
        v
    };
    proof {
        vstd::arithmetic::mul::lemma_mul_upper_bound(
            m as int,
            MAX_RAW as int,
            SCALE as int,
            SCALE as int,
        );
        vstd::arithmetic::mul::lemma_mul_nonnegative(m as int, SCALE as int);
    }
    let s: u128 = isqrt_mag((m as u128) * (SCALE as u128));
    proof {
        lemma_sqrt_floor((m as int) * (SCALE as int));
        lemma_sqrt_unique(
            (m as int) * (SCALE as int),
            s as int,
            sqrt_floor((m as int) * (SCALE as int)),
        );
        assert(s as int <= 1_000_000_000_000) by (nonlinear_arith)
            requires
                (s as int) * (s as int) <= 1_000_000_000_000_000_000 * (1_000_000 as int),
                s as int >= 0,
        ;
    }
    s as i64
}

/// Normalize an angle into the range from (exclusive) minus the half turn
/// to (inclusive) the half turn, in micro radians.
pub open spec fn norm_q(x: int) -> int {
    let m = x % (TWO_PI_RAW as int);
    if m > PI_RAW as int {
        m - TWO_PI_RAW as int
    } else {
        m
    }
}

/// Executable angle normalization.
pub fn fix_norm(x: i64) -> (r: i64)
    ensures
        r as int == norm_q(x as int),
        -(PI_RAW as int) < r as int <= PI_RAW as int,
{
    let mu: u128 = abs_mag(x) % (TWO_PI_RAW as u128);
    let e: i64 = if x >= 0 {
        mu as i64
    } else if mu == 0 {
        0
    } else {
        TWO_PI_RAW - (mu as i64)
    };
    proof {
        let tp = TWO_PI_RAW as int;
        if x < 0 {
            let y = abs_int(x as int);
            vstd::arithmetic::div_mod::lemma_fundamental_div_mod(y, tp);
            let qq = y / tp;
            if mu == 0 {
                vstd::arithmetic::div_mod::lemma_fundamental_div_mod_converse(
                    x as int,
                    tp,
                    -qq,
                    0,
                );
            } else {
                vstd::arithmetic::div_mod::lemma_fundamental_div_mod_converse(
                    x as int,
                    tp,
                    -qq - 1,
                    tp - mu as int,
                );
            }
        }
    }
    if e > PI_RAW {
        e - TWO_PI_RAW
    } else {
        e
    }
}

} // verus!

verus! {

/// Truncated Taylor polynomial for the sine of `a` micro radians, intended
/// for arguments between zero and the quarter turn.
pub open spec fn sin_poly(a: int) -> int {
    let s = SCALE as int;
    let a2 = (a * a) / s;
    let a3 = (a2 * a) / s;
    let a5 = (a3 * a2) / s;
    let a7 = (a5 * a2) / s;
    a - a3 / 6 + a5 / 120 - a7 / 5040
}

/// Truncated Taylor polynomial for the cosine of `a` micro radians, intended
/// for arguments between zero and the quarter turn.
pub open spec fn cos_poly(a: int) -> int {
    let s = SCALE as int;
    let a2 = (a * a) / s;
    let a4 = (a2 * a2) / s;
    let a6 = (a4 * a2) / s;
    s - a2 / 2 + a4 / 24 - a6 / 720
}

fn sin_poly_exec(a: i64) -> (r: i64)
    requires
        0 <= a,
        a <= HALF_PI_RAW as int,
    ensures
        r as int == sin_poly(a as int),
        -4_000_000 <= r as int <= 4_000_000,
{
    let au: u128 = a as u128;
    let su: u128 = SCALE as u128;
    proof {
        vstd::arithmetic::mul::lemma_mul_upper_bound(au as int, 1_570_796, au as int, 1_570_796);
    }
    let p2: u128 = au * au;
    let a2: u128 = p2 / su;
    proof {
        vstd::arithmetic::div_mod::lemma_div_is_ordered(p2 as int, 2_467_400_073_616, su as int);
        vstd::arithmetic::mul::lemma_mul_upper_bound(a2 as int, 2_467_400, au as int, 1_570_796);
    }
    let p3: u128 = a2 * au;
    let a3: u128 = p3 / su;
    proof {
        vstd::arithmetic::div_mod::lemma_div_is_ordered(p3 as int, 3_875_782_050_400, su as int);
        vstd::arithmetic::mul::lemma_mul_upper_bound(a3 as int, 3_875_782, a2 as int, 2_467_400);
    }
    let p5: u128 = a3 * a2;
    let a5: u128 = p5 / su;
    proof {
        vstd::arithmetic::div_mod::lemma_div_is_ordered(p5 as int, 9_563_104_506_800, su as int);
        vstd::arithmetic::mul::lemma_mul_upper_bound(a5 as int, 9_563_104, a2 as int, 2_467_400);
    }
    let p7: u128 = a5 * a2;
    let a7: u128 = p7 / su;
    proof {
        vstd::arithmetic::div_mod::lemma_div_is_ordered(p7 as int, 23_596_002_809_600, su as int);
    }
    let t3: u128 = a3 / 6;
    let t5: u128 = a5 / 120;
    let t7: u128 = a7 / 5040;
    proof {
        vstd::arithmetic::div_mod::lemma_div_is_ordered(a3 as int, 3_875_782, 6);
        vstd::arithmetic::div_mod::lemma_div_is_ordered(a5 as int, 9_563_104, 120);
        vstd::arithmetic::div_mod::lemma_div_is_ordered(a7 as int, 23_596_002, 5040);
    }
    let r: i128 = a as i128 - t3 as i128 + t5 as i128 - t7 as i128;
    r as i64
}

fn cos_poly_exec(a: i64) -> (r: i64)
    requires
        0 <= a,
        a <= HALF_PI_RAW as int,
    ensures
        r as int == cos_poly(a as int),
        -4_000_000 <= r as int <= 4_000_000,
{
    let au: u128 = a as u128;
    let su: u128 = SCALE as u128;
    proof {
        vstd::arithmetic::mul::lemma_mul_upper_bound(au as int, 1_570_796, au as int, 1_570_796);
    }
    let p2: u128 = au * au;
    let a2: u128 = p2 / su;
    proof {
        vstd::arithmetic::div_mod::lemma_div_is_ordered(p2 as int, 2_467_400_073_616, su as int);
        vstd::arithmetic::mul::lemma_mul_upper_bound(a2 as int, 2_467_400, a2 as int, 2_467_400);
    }
    let p4: u128 = a2 * a2;
    let a4: u128 = p4 / su;
    proof {
        vstd::arithmetic::div_mod::lemma_div_is_ordered(p4 as int, 6_088_062_760_000, su as int);
        vstd::arithmetic::mul::lemma_mul_upper_bound(a4 as int, 6_088_062, a2 as int, 2_467_400);
    }
    let p6: u128 = a4 * a2;
    let a6: u128 = p6 / su;
    proof {
        vstd::arithmetic::div_mod::lemma_div_is_ordered(p6 as int, 15_021_684_178_800, su as int);
    }
    let t2: u128 = a2 / 2;
    let t4: u128 = a4 / 24;
    let t6: u128 = a6 / 720;
    proof {
        vstd::arithmetic::div_mod::lemma_div_is_ordered(a2 as int, 2_467_400, 2);
        vstd::arithmetic::div_mod::lemma_div_is_ordered(a4 as int, 6_088_062, 24);
        vstd::arithmetic::div_mod::lemma_div_is_ordered(a6 as int, 15_021_684, 720);
    }
    let r: i128 = SCALE as i128 - t2 as i128 + t4 as i128 - t6 as i128;
    r as i64
}

/// Sine of an angle in micro radians, as a micro-unit ratio: the angle is
/// normalized, folded into the first quadrant by symmetry, and evaluated by
/// the truncated Taylor polynomial.
pub open spec fn sin_q(x: int) -> int {
    let m = norm_q(x);
    let a = abs_int(m);
    let b = if a > HALF_PI_RAW as int {
        PI_RAW as int - a
    } else {
        a
    };
    if m >= 0 {
        sin_poly(b)
    } else {
        -sin_poly(b)
    }
}

/// Cosine of an angle in micro radians, as a micro-unit ratio.
pub open spec fn cos_q(x: int) -> int {
    let m = norm_q(x);
    let a = abs_int(m);
    if a > HALF_PI_RAW as int {
        -cos_poly(PI_RAW as int - a)
    } else {
        cos_poly(a)
    }
}

/// Executable sine on raw micro radians.
pub fn fix_sin(x: i64) -> (r: i64)
    ensures
        r as int == sin_q(x as int),
{
    let m: i64 = fix_norm(x);
    let a: i64 = if m >= 0 {
        m
    } else {
        -m
    };
    let b: i64 = if a > HALF_PI_RAW {
        PI_RAW - a
    } else {
        a
    };
    let p: i64 = sin_poly_exec(b);
    if m >= 0 {
        p
    } else {
        -p
    }
}

/// Executable cosine on raw micro radians.
pub fn fix_cos(x: i64) -> (r: i64)
    ensures
        r as int == cos_q(x as int),
{
    let m: i64 = fix_norm(x);
    let a: i64 = if m >= 0 {
        m
    } else {
        -m
    };
    if a > HALF_PI_RAW {
        let p: i64 = cos_poly_exec(PI_RAW - a);
        -p
    } else {
        cos_poly_exec(a)
    }
}

/// Quadratic arctangent approximation for a ratio between zero and one.
pub open spec fn atan_unit(z: int) -> int {
    mul_q(z, add_q(QUARTER_PI_RAW as int, mul_q(ATAN_K_RAW as int, sub_q(SCALE as int, z))))
}

fn atan_unit_exec(z: i64) -> (r: i64)
    ensures
        r as int == atan_unit(z as int),
{
    fix_mul(z, fix_add(QUARTER_PI_RAW, fix_mul(ATAN_K_RAW, fix_sub(SCALE, z))))
}

/// Four-quadrant arctangent of `y / x`, in micro radians, with the octant
/// reduction of the quadratic approximation.  Both arguments zero yield
/// zero; the result magnitude never exceeds the half turn.
pub open spec fn atan2_q(y: int, x: int) -> int {
    if x == 0 && y == 0 {
        0
    } else if x == 0 {
        if y > 0 {
            HALF_PI_RAW as int
        } else {
            -(HALF_PI_RAW as int)
        }
    } else if y == 0 {
        if x > 0 {
            0
        } else {
            PI_RAW as int
        }
    } else {
        let ay = abs_q(y);
        let ax = abs_q(x);
        let base = if ay <= ax {
            atan_unit(div_q(ay, ax))
        } else {
            HALF_PI_RAW as int - atan_unit(div_q(ax, ay))
        };
        let mag = if x > 0 {
            base
        } else {
            PI_RAW as int - base
        };
        if y > 0 {
            mag
        } else {
            -mag
        }
    }
}

/// Executable four-quadrant arctangent on raw values.
pub fn fix_atan2(y: i64, x: i64) -> (r: i64)
    ensures
        r as int == atan2_q(y as int, x as int),
{
    if x == 0 && y == 0 {
        return 0;
    }
    if x == 0 {
        return if y > 0 {
            HALF_PI_RAW
        } else {
            -HALF_PI_RAW
        };
    }
    if y == 0 {
        return if x > 0 {
            0
        } else {
            PI_RAW
        };
    }
    let ay: i64 = fix_abs(y);
    let ax: i64 = fix_abs(x);
    let base: i64 = if ay <= ax {
        atan_unit_exec(fix_div(ay, ax))
    } else {
        HALF_PI_RAW - atan_unit_exec(fix_div(ax, ay))
    };
    let mag: i64 = if x > 0 {
        base
    } else {
        PI_RAW - base
    };
    if y > 0 {
        mag
    } else {
        -mag
    }
}

/// Tangent as the fixed-point quotient of sine and cosine.
pub open spec fn tan_q(x: int) -> int {
    div_q(sin_q(x), cos_q(x))
}

/// Executable tangent on raw micro radians.
pub fn fix_tan(x: i64) -> (r: i64)
    ensures
        r as int == tan_q(x as int),
{
    let s: i64 = fix_sin(x);
    let c: i64 = fix_cos(x);
    fix_div(s, c)
}

/// Arctangent of a micro-unit ratio, in micro radians.
pub open spec fn atan_q(z: int) -> int {
    atan2_q(z, SCALE as int)
}

/// Executable arctangent on raw values.
pub fn fix_atan(z: i64) -> (r: i64)
    ensures
        r as int == atan_q(z as int),
{
    fix_atan2(z, SCALE)
}

/// Arcsine of a micro-unit ratio, in micro radians.
pub open spec fn asin_q(z: int) -> int {
    atan2_q(z, sqrt_q(sub_q(SCALE as int, mul_q(z, z))))
}

/// Executable arcsine on raw values.
pub fn fix_asin(z: i64) -> (r: i64)
    ensures
        r as int == asin_q(z as int),
{
    let c: i64 = fix_sqrt(fix_sub(SCALE, fix_mul(z, z)));
    fix_atan2(z, c)
}

/// Arccosine of a micro-unit ratio, in micro radians.
pub open spec fn acos_q(z: int) -> int {
    atan2_q(sqrt_q(sub_q(SCALE as int, mul_q(z, z))), z)
}

/// Executable arccosine on raw values.
pub fn fix_acos(z: i64) -> (r: i64)
    ensures
        r as int == acos_q(z as int),
{
    let c: i64 = fix_sqrt(fix_sub(SCALE, fix_mul(z, z)));
    fix_atan2(c, z)
}

} // verus!

verus! {

/// A whole number of base units, as a raw micro-unit count.
pub open spec fn scale_q(v: int) -> int {
    clamp_raw(v * (SCALE as int))
}

/// Multiply a raw value by a positive whole number, saturating.
pub fn fix_mul_int(a: i64, k: i64) -> (r: i64)
    requires
        k > 0,
    ensures
        r as int == clamp_raw(a as int * k as int),
{
    let ma: u128 = abs_mag(a);
    proof {
        vstd::arithmetic::mul::lemma_mul_upper_bound(
            ma as int,
            0x8000_0000_0000_0000,
            k as int,
            0x8000_0000_0000_0000,
        );
        lemma_abs_mul(a as int, k as int);
        if a < 0 {
            assert((a as int) * (k as int) <= 0) by (nonlinear_arith)
                requires
                    a as int <= 0,
                    k as int >= 0,
            ;
        } else {
            assert((a as int) * (k as int) >= 0) by (nonlinear_arith)
                requires
                    a as int >= 0,
                    k as int >= 0,
            ;
        }
    }
    let p: u128 = ma * (k as u128);
    clamp_signed(p, a < 0)
}

/// Divide a raw value by a positive whole number, rounding toward zero.
pub fn fix_div_int(a: i64, k: i64) -> (r: i64)
    requires
        k > 0,
    ensures
        r as int == clamp_raw(div_trunc(a as int, k as int)),
{
    let q: u128 = abs_mag(a) / (k as u128);
    clamp_signed(q, a < 0)
}

/// Values with a four-quadrant arctangent against another value of the
/// same dimension, yielding an angle.
pub trait Real: View<V = int> {
    type Angle: View<V = int>;

    fn atan2(self, x: Self) -> (r: Self::Angle)
        ensures
            r@ == atan2_q(self@, x@),
    ;
}

/// Values whose square root stays representable, in the dimension given by
/// the `Root` type.
pub trait RealSquare: Real {
    type Root: View<V = int>;

    fn sqrt(self) -> (r: Self::Root)
        ensures
            r@ == sqrt_q(self@),
    ;
}

/// Angular values with the three direct trigonometric functions.
pub trait RealAngle: View<V = int> {
    type Ratio: View<V = int>;

    fn sin(self) -> (r: Self::Ratio)
        ensures
            r@ == sin_q(self@),
    ;

    fn cos(self) -> (r: Self::Ratio)
        ensures
            r@ == cos_q(self@),
    ;

    fn tan(self) -> (r: Self::Ratio)
        ensures
            r@ == tan_q(self@),
    ;
}

/// Dimensionless values with the inverse trigonometric functions.
pub trait RealRatio: RealSquare<Root = Self> {
    fn asin(self) -> (r: Self::Angle)
        ensures
            r@ == asin_q(self@),
    ;

    fn acos(self) -> (r: Self::Angle)
        ensures
            r@ == acos_q(self@),
    ;

    fn atan(self) -> (r: Self::Angle)
        ensures
            r@ == atan_q(self@),
    ;
}

/// The bare numeric primitive: closed under every trigonometric operation.
pub trait RealPrimitive: RealAngle<Ratio = Self> + RealRatio<Angle = Self> {

}

/// A bare fixed-point scalar: the numeric primitive that the dimensioned
/// quantity types wrap, itself closed under all the `Real` operations.
#[derive(Clone, Copy, PartialEq, Eq, Structural, Debug)]
pub struct Scalar {
    pub raw: i64,
}

impl View for Scalar {
    type V = int;

    open spec fn view(&self) -> int {
        self.raw as int
    }
}

impl Scalar {
    /// Wrap a raw micro-unit count.
    pub fn from_raw(raw: i64) -> (r: Self)
        ensures
            r@ == raw as int,
    {
        Scalar { raw }
    }
}

impl Real for Scalar {
    type Angle = Scalar;

    fn atan2(self, x: Self) -> (r: Scalar) {
        Scalar { raw: fix_atan2(self.raw, x.raw) }
    }
}

impl RealSquare for Scalar {
    type Root = Scalar;

    fn sqrt(self) -> (r: Scalar) {
        Scalar { raw: fix_sqrt(self.raw) }
    }
}

impl RealAngle for Scalar {
    type Ratio = Scalar;

    fn sin(self) -> (r: Scalar) {
        Scalar { raw: fix_sin(self.raw) }
    }

    fn cos(self) -> (r: Scalar) {
        Scalar { raw: fix_cos(self.raw) }
    }

    fn tan(self) -> (r: Scalar) {
        Scalar { raw: fix_tan(self.raw) }
    }
}

impl RealRatio for Scalar {
    fn asin(self) -> (r: Scalar) {
        Scalar { raw: fix_asin(self.raw) }
    }

    fn acos(self) -> (r: Scalar) {
        Scalar { raw: fix_acos(self.raw) }
    }

    fn atan(self) -> (r: Scalar) {
        Scalar { raw: fix_atan(self.raw) }
    }
}

impl RealPrimitive for Scalar {

}

} // verus!

verus! {

/// Fixed-point operations with a zero operand collapse to zero.
pub proof fn lemma_fix_zero(b: int)
    ensures
        mul_q(0, b) == 0,
        mul_q(b, 0) == 0,
        div_q(0, b) == 0,
        half_q(0) == 0,
{
    assert(0 * b == 0) by (nonlinear_arith);
    assert(b * 0 == 0) by (nonlinear_arith);
    assert(0 * (SCALE as int) == 0) by (nonlinear_arith);
    if b != 0 {
        vstd::arithmetic::div_mod::lemma_basic_div(0, abs_int(b));
    }
    vstd::arithmetic::div_mod::lemma_basic_div(0, SCALE as int);
    vstd::arithmetic::div_mod::lemma_basic_div(0, 2);
}

/// Fixed-point multiplication flips sign with its first operand.
pub proof fn lemma_mul_q_neg(a: int, b: int)
    ensures
        mul_q(-a, b) == -mul_q(a, b),
{
    assert((-a) * b == -(a * b)) by (nonlinear_arith);
    lemma_abs_mul(a, b);
    lemma_abs_mul(-a, b);
}

} // verus!

verus! {

/// A normalized angle lies strictly above minus the half turn and at most
/// at the half turn.
pub proof fn lemma_norm_q_bounds(x: int)
    ensures
        -(PI_RAW as int) < norm_q(x) <= PI_RAW as int,
{
    vstd::arithmetic::div_mod::lemma_mod_bound(x, TWO_PI_RAW as int);
}

} // verus!
