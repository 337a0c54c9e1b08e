//! The number model: signed 64-bit fixed-point values with six decimal places.
//!
//! Lengths are in pixels, angles in degrees, times in frames; each is stored
//! as the integer number of millionths. Results that leave the 64-bit range
//! saturate at its ends.

use vstd::prelude::*;

verus! {

/// The integer that stands for 1.0.
pub const UNIT: i64 = 1_000_000;

/// Half a turn, 180 degrees.
pub const HALF_TURN: i64 = 180_000_000;

/// A full turn, 360 degrees.
pub const FULL_TURN: i64 = 360_000_000;

/// A position or displacement in the plane.
#[derive(Clone, Copy, Debug, PartialEq, Eq, Structural)]
pub struct Point2 {
    pub x: i64,
    pub y: i64,
}

/// `v` limited to the range of `i64`.
pub open spec fn clamp64(v: int) -> int {
    if v < i64::MIN {
        i64::MIN as int
    } else if v > i64::MAX {
        i64::MAX as int
    } else {
        v
    }
}

/// `v` limited to `lo ..= hi`; `lo` where the range is empty.
pub open spec fn clamp_between(v: int, lo: int, hi: int) -> int {
    if v < lo || hi < lo {
        lo
    } else if v > hi {
        hi
    } else {
        v
    }
}

/// The quotient `n / d` rounded toward zero, for a positive divisor.
pub open spec fn trunc_div(n: int, d: int) -> int
    recommends
        d > 0,
{
    if n >= 0 {
        n / d
    } else {
        -((-n) / d)
    }
}

/// The quotient `n / d` rounded to the nearest integer, halves away from
/// zero, for a positive divisor.
pub open spec fn round_div(n: int, d: int) -> int
    recommends
        d > 0,
{
    if n >= 0 {
        (2 * n + d) / (2 * d)
    } else {
        -((2 * (-n) + d) / (2 * d))
    }
}

/// The fixed-point product of `a` and the factor `f`, before saturation.
pub open spec fn scaled(a: int, f: int) -> int {
    trunc_div(a * f, UNIT as int)
}

/// Rounding keeps the sign: a quotient of a non-positive numerator is not
/// positive, and one of a non-negative numerator is not negative.
pub proof fn lemma_round_div_sign(n: int, d: int)
    requires
        d > 0,
    ensures
        n <= 0 ==> round_div(n, d) <= 0,
        n >= 0 ==> round_div(n, d) >= 0,
{
    if n >= 0 {
        assert((2 * n + d) / (2 * d) >= 0) by (nonlinear_arith)
            requires
                n >= 0,
                d > 0,
        ;
        if n == 0 {
            assert((2 * n + d) / (2 * d) == 0) by (nonlinear_arith)
                requires
                    n == 0,
                    d > 0,
            ;
        }
    } else {
        assert((2 * (-n) + d) / (2 * d) >= 0) by (nonlinear_arith)
            requires
                n < 0,
                d > 0,
        ;
    }
}

/// How far `a` and `b` lie apart.
pub open spec fn distance(a: int, b: int) -> int {
    if a >= b {
        a - b
    } else {
        b - a
    }
}

/// A rounded quotient is off by half the divisor at most: `n` lies within
/// `d / 2` of `round_div(n, d) * d`.
pub proof fn lemma_round_div_near(n: int, d: int)
    requires
        d > 0,
    ensures
        2 * distance(n, round_div(n, d) * d) <= d,
{
    if n >= 0 {
        let q = (2 * n + d) / (2 * d);
        vstd::arithmetic::div_mod::lemma_fundamental_div_mod(2 * n + d, 2 * d);
        let r = (2 * n + d) % (2 * d);
        assert(0 <= r < 2 * d);
        assert(2 * n + d == (2 * d) * q + r);
        assert((2 * d) * q == 2 * (q * d)) by (nonlinear_arith);
    } else {
        let q = (2 * (-n) + d) / (2 * d);
        vstd::arithmetic::div_mod::lemma_fundamental_div_mod(2 * (-n) + d, 2 * d);
        let r = (2 * (-n) + d) % (2 * d);
        assert(0 <= r < 2 * d);
        assert(2 * (-n) + d == (2 * d) * q + r);
        assert((2 * d) * q == 2 * (q * d)) by (nonlinear_arith);
        assert((-q) * d == -(q * d)) by (nonlinear_arith);
    }
}

/// The product of two 64-bit values lies within 127 bits.
pub proof fn lemma_product_bounds(a: int, b: int)
    requires
        i64::MIN <= a <= i64::MAX,
        i64::MIN <= b <= i64::MAX,
    ensures
        -0x4000_0000_0000_0000_0000_0000_0000_0000 <= a * b <= 0x4000_0000_0000_0000_0000_0000_0000_0000,
{
    assert(-0x4000_0000_0000_0000_0000_0000_0000_0000 <= a * b
        <= 0x4000_0000_0000_0000_0000_0000_0000_0000) by (nonlinear_arith)
        requires
            -0x8000_0000_0000_0000 <= a <= 0x7fff_ffff_ffff_ffff,
            -0x8000_0000_0000_0000 <= b <= 0x7fff_ffff_ffff_ffff,
    ;
}

/// Narrows a wide intermediate result, saturating at the ends of `i64`.
pub fn saturate(v: i128) -> (r: i64)
    ensures
        r == clamp64(v as int),
{
    if v < i64::MIN as i128 {
        i64::MIN
    } else if v > i64::MAX as i128 {
        i64::MAX
    } else {
        v as i64
    }
}

/// Saturating sum.
pub fn add_sat(a: i64, b: i64) -> (r: i64)
    ensures
        r == clamp64(a + b),
{
    saturate(a as i128 + b as i128)
}

/// Saturating difference.
pub fn sub_sat(a: i64, b: i64) -> (r: i64)
    ensures
        r == clamp64(a - b),
{
    saturate(a as i128 - b as i128)
}

/// `a * b / d` rounded toward zero, computed without intermediate overflow
/// and saturated.
pub fn mul_div(a: i64, b: i64, d: i64) -> (r: i64)
    requires
        d > 0,
    ensures
        r == clamp64(trunc_div(a * b, d as int)),
{
    proof {
        lemma_product_bounds(a as int, b as int);
    }
    let p: i128 = a as i128 * b as i128;
    saturate(p / d as i128)
}

/// The fixed-point product `a * f / UNIT`, saturated.
pub fn scale(a: i64, f: i64) -> (r: i64)
    ensures
        r == clamp64(scaled(a as int, f as int)),
{
    mul_div(a, f, UNIT)
}

/// The value that lies the share `value` of the way from `out_min` to
/// `out_max`, where `UNIT` is the whole way.
pub open spec fn mapped(value: int, out_min: int, out_max: int) -> int {
    clamp64(out_min + clamp64(scaled(clamp64(out_max - out_min), value)))
}

/// Maps a share of one onto the range from `out_min` to `out_max`.
pub fn map_range(value: i64, out_min: i64, out_max: i64) -> (r: i64)
    ensures
        r == mapped(value as int, out_min as int, out_max as int),
{
    add_sat(out_min, scale(sub_sat(out_max, out_min), value))
}

/// A share of at least zero and less than one maps into the range.
pub proof fn lemma_mapped_within(value: int, out_min: int, out_max: int)
    requires
        0 <= value < UNIT,
        i64::MIN <= out_min <= out_max <= i64::MAX,
    ensures
        out_min <= mapped(value, out_min, out_max) <= out_max,
        out_min < out_max ==> mapped(value, out_min, out_max) < out_max,
{
    let d = clamp64(out_max - out_min);
    assert(0 <= d <= out_max - out_min);
    let u = UNIT as int;
    assert(0 <= d * value && d * value <= d * u) by (nonlinear_arith)
        requires
            0 <= d,
            0 <= value < u,
    ;
    assert(0 <= (d * value) / u <= d) by (nonlinear_arith)
        requires
            0 <= d * value <= d * u,
            u > 0,
    ;
    if out_min < out_max {
        assert(d > 0);
        assert(d * value < d * u) by (nonlinear_arith)
            requires
                0 < d,
                0 <= value < u,
        ;
        assert((d * value) / u < d) by (nonlinear_arith)
            requires
                0 <= d * value < d * u,
                u > 0,
        ;
    }
}

} // verus!
