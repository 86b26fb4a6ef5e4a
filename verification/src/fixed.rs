//! Fixed-point numbers: an `i64` that counts millionths. Sums and products
//! stop at the ends of the `i64` range in place of wrapping round.

use vstd::prelude::*;

verus! {

/// The number one: a million millionths.
pub const UNIT: i64 = 1_000_000;

/// A point or a direction in space.
#[derive(Clone, Copy, Debug, PartialEq, Eq, Structural)]
pub struct Vector3 {
    pub x: i64,
    pub y: i64,
    pub z: i64,
}

/// The nearest value of the `i64` range.
pub open spec fn saturate(v: int) -> i64 {
    if v < i64::MIN {
        i64::MIN
    } else if v > i64::MAX {
        i64::MAX
    } else {
        v as i64
    }
}

/// `p / d` rounded towards zero, for a positive `d`.
pub open spec fn quotient_towards_zero(p: int, d: int) -> int {
    if p >= 0 {
        p / d
    } else {
        -((-p) / d)
    }
}

/// The sum of two fixed-point numbers.
pub open spec fn sum(a: i64, b: i64) -> i64 {
    saturate(a + b)
}

/// The product of two fixed-point numbers, rounded towards zero to a whole
/// number of millionths.
pub open spec fn product(a: i64, b: i64) -> i64 {
    saturate(quotient_towards_zero(a * b, UNIT as int))
}

/// `v` held between `-limit` and `limit`.
pub open spec fn bounded(v: i64, limit: i64) -> i64 {
    if v < -limit {
        (-limit) as i64
    } else if v > limit {
        limit
    } else {
        v
    }
}

/// Adds two fixed-point numbers.
pub fn plus(a: i64, b: i64) -> (r: i64)
    ensures
        r == sum(a, b),
{
    let wide: i128 = a as i128 + b as i128;
    narrow(wide)
}

/// Multiplies two fixed-point numbers.
pub fn times(a: i64, b: i64) -> (r: i64)
    ensures
        r == product(a, b),
{
    assert(-0x4000_0000_0000_0000_0000_0000_0000_0000 <= a * b
        <= 0x4000_0000_0000_0000_0000_0000_0000_0000) by (nonlinear_arith)
        requires
            -0x8000_0000_0000_0000 <= a <= 0x7fff_ffff_ffff_ffff,
            -0x8000_0000_0000_0000 <= b <= 0x7fff_ffff_ffff_ffff,
    ;
    let wide: i128 = a as i128 * b as i128;
    let scaled: i128 = if wide >= 0 {
        wide / 1_000_000
    } else {
        -((-wide) / 1_000_000)
    };
    narrow(scaled)
}

/// Holds `v` between `-limit` and `limit`, for a limit that is not negative.
pub fn clamp(v: i64, limit: i64) -> (r: i64)
    requires
        limit >= 0,
    ensures
        r == bounded(v, limit),
        -limit <= r <= limit,
{
    if v < -limit {
        -limit
    } else if v > limit {
        limit
    } else {
        v
    }
}

/// The nearest `i64` to a wider number.
fn narrow(v: i128) -> (r: i64)
    ensures
        r == saturate(v as int),
{
    if v < -0x8000_0000_0000_0000 {
        -0x8000_0000_0000_0000
    } else if v > 0x7fff_ffff_ffff_ffff {
        0x7fff_ffff_ffff_ffff
    } else {
        v as i64
    }
}

/// A product with zero is zero.
pub proof fn product_with_zero(a: i64)
    ensures
        product(a, 0) == 0,
        product(0, a) == 0,
{
    assert(a * 0 == 0 && 0 * a == 0) by (nonlinear_arith);
}

} // verus!
