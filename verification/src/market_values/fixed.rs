//! Fixed-point arithmetic: a value is a whole number of millionths.

use vstd::prelude::*;

verus! {

/// How many millionths make one.
pub const SCALE: i64 = 1_000_000;

/// `x` can be held as a value.
pub open spec fn fits(x: int) -> bool {
    i64::MIN <= x <= i64::MAX
}

/// The quotient of `a` by `b`, rounded toward zero. Meant for `b != 0`.
pub open spec fn quotient(a: int, b: int) -> int {
    if a >= 0 && b > 0 {
        a / b
    } else if a < 0 && b > 0 {
        -((-a) / b)
    } else if a >= 0 && b < 0 {
        -(a / (-b))
    } else {
        (-a) / (-b)
    }
}

/// The value, if any, that holds `x`.
pub open spec fn held(x: int) -> Option<i64> {
    if fits(x) {
        Some(x as i64)
    } else {
        None
    }
}

/// The fixed-point product of two values: `a * b` in millionths.
pub open spec fn scaled_product(a: int, b: int) -> int {
    quotient(a * b, SCALE as int)
}

/// The fixed-point quotient of two values: `a / b` in millionths. Meant for `b != 0`.
pub open spec fn scaled_ratio(a: int, b: int) -> int {
    quotient(a * SCALE, b)
}

/// Rounds `a / b` toward zero.
pub(crate) fn divide(a: i128, b: i128) -> (q: i128)
    requires
        b != 0,
        i128::MIN < a,
        i128::MIN < b,
    ensures
        q == quotient(a as int, b as int),
{
    if a >= 0 && b > 0 {
        a / b
    } else if a < 0 && b > 0 {
        -((-a) / b)
    } else if a >= 0 && b < 0 {
        -(a / (-b))
    } else {
        (-a) / (-b)
    }
}

/// Brings a wide result back into a value, where it fits.
pub fn narrow(x: i128) -> (value: Option<i64>)
    ensures
        value == held(x as int),
{
    if x < i64::MIN as i128 || x > i64::MAX as i128 {
        None
    } else {
        Some(x as i64)
    }
}

/// The growth from `old` to `new` as a fraction in millionths, `new / old - 1`:
/// none from zero, and none that cannot be held.
pub open spec fn growth_between(old: int, new: int) -> Option<i64> {
    if old == 0 {
        None
    } else {
        held(scaled_ratio(new, old) - SCALE)
    }
}

/// Computes [`growth_between`].
pub fn checked_growth(old: i64, new: i64) -> (growth: Option<i64>)
    ensures
        growth == growth_between(old as int, new as int),
{
    if old == 0 {
        None
    } else {
        let wide: i128 = multiply(new as i128, SCALE as i128);
        let ratio: i128 = divide(wide, old as i128);
        proof {
            ratio_is_bounded(new as int, old as int);
        }
        narrow(ratio - SCALE as i128)
    }
}

/// A fixed-point quotient of two values is no larger than a value times the
/// scale.
pub proof fn ratio_is_bounded(a: int, b: int)
    requires
        fits(a),
        fits(b),
        b != 0,
    ensures
        -0x8000_0000_0000_0000 * SCALE <= scaled_ratio(a, b) <= 0x8000_0000_0000_0000 * SCALE,
{
    let wide = a * SCALE;
    assert(-0x8000_0000_0000_0000 * SCALE <= wide <= 0x8000_0000_0000_0000 * SCALE)
        by (nonlinear_arith)
        requires
            fits(a),
            wide == a * SCALE,
    ;
    let high = 0x8000_0000_0000_0000 * SCALE;
    if wide >= 0 && b > 0 {
        assert(0 <= wide / b <= wide) by (nonlinear_arith)
            requires
                wide >= 0,
                b > 0,
        ;
    } else if wide < 0 && b > 0 {
        assert(0 <= (-wide) / b <= -wide) by (nonlinear_arith)
            requires
                -wide >= 0,
                b > 0,
        ;
    } else if wide >= 0 && b < 0 {
        assert(0 <= wide / (-b) <= wide) by (nonlinear_arith)
            requires
                wide >= 0,
                -b > 0,
        ;
    } else {
        assert(0 <= (-wide) / (-b) <= -wide) by (nonlinear_arith)
            requires
                -wide >= 0,
                -b > 0,
        ;
    }
}

/// A value raised by a percentage of itself: `a * (1 + p)`.
pub open spec fn raised(a: int, p: int) -> int {
    scaled_product(a, SCALE + p)
}

/// A value lowered by a percentage of itself: `a * (1 - p)`.
pub open spec fn lowered(a: int, p: int) -> int {
    scaled_product(a, SCALE - p)
}

/// `a * b` in fixed point, where the result can be held.
pub fn checked_product(a: i64, b: i64) -> (product: Option<i64>)
    ensures
        product == held(scaled_product(a as int, b as int)),
{
    let wide: i128 = multiply(a as i128, b as i128);
    narrow(divide(wide, SCALE as i128))
}

/// `a / b` in fixed point, where `b` is not zero and the result can be held.
pub fn checked_ratio(a: i64, b: i64) -> (ratio: Option<i64>)
    ensures
        ratio == if b == 0 {
            None
        } else {
            held(scaled_ratio(a as int, b as int))
        },
{
    if b == 0 {
        None
    } else {
        let wide: i128 = multiply(a as i128, SCALE as i128);
        narrow(divide(wide, b as i128))
    }
}

/// The product of a value and a number little wider than a value.
pub(crate) fn multiply(a: i128, b: i128) -> (product: i128)
    requires
        -0x8000_0000_0000_0000 <= a <= 0x8000_0000_0000_0000,
        -0x8000_0000_0010_0000 <= b <= 0x8000_0000_0010_0000,
    ensures
        product == a * b,
        i128::MIN < product,
{
    assert(-0x8000_0000_0000_0000 * 0x8000_0000_0010_0000 <= a * b <= 0x8000_0000_0000_0000
        * 0x8000_0000_0010_0000) by (nonlinear_arith)
        requires
            -0x8000_0000_0000_0000 <= a <= 0x8000_0000_0000_0000,
            -0x8000_0000_0010_0000 <= b <= 0x8000_0000_0010_0000,
    ;
    a * b
}

} // verus!
