//! Signed fixed-point arithmetic: what an `i128` can hold, and division that rounds toward zero.

use vstd::prelude::*;
use vstd::arithmetic::div_mod::lemma_fundamental_div_mod;

verus! {

/// Whether `x` is a value of type `i128`.
pub open spec fn fits(x: int) -> bool {
    i128::MIN <= x <= i128::MAX
}

/// The quotient of `a` by `b`, rounded toward zero. Meant for `b != 0`.
pub open spec fn quot(a: int, b: int) -> int {
    if b > 0 {
        if a >= 0 {
            a / b
        } else {
            -((-a) / b)
        }
    } else {
        if a >= 0 {
            -(a / (-b))
        } else {
            (-a) / (-b)
        }
    }
}

/// The larger of `x` and zero.
pub open spec fn positive_part(x: int) -> int {
    if x > 0 {
        x
    } else {
        0
    }
}

/// Exact product, or `None` where it is no `i128`.
pub fn product(a: i128, b: i128) -> (r: Option<i128>)
    ensures
        r is Some <==> fits(a * b),
        r matches Some(x) ==> x == a * b,
{
    a.checked_mul(b)
}

/// Exact sum, or `None` where it is no `i128`.
pub fn sum(a: i128, b: i128) -> (r: Option<i128>)
    ensures
        r is Some <==> fits(a + b),
        r matches Some(x) ==> x == a + b,
{
    a.checked_add(b)
}

/// Exact difference, or `None` where it is no `i128`.
pub fn difference(a: i128, b: i128) -> (r: Option<i128>)
    ensures
        r is Some <==> fits(a - b),
        r matches Some(x) ==> x == a - b,
{
    a.checked_sub(b)
}

/// Quotient rounded toward zero, or `None` where it is no `i128`.
pub fn quotient(a: i128, b: i128) -> (r: Option<i128>)
    requires
        b != 0,
    ensures
        r is Some <==> fits(quot(a as int, b as int)),
        r matches Some(x) ==> x == quot(a as int, b as int),
{
    a.checked_div(b)
}

/// Quotient by a positive number, rounded toward zero.
pub fn ratio(a: i128, b: i128) -> (r: i128)
    requires
        b > 0,
    ensures
        r == quot(a as int, b as int),
{
    a / b
}

/// The larger of `x` and zero.
pub fn clamp_to_zero(x: i128) -> (r: i128)
    ensures
        r == positive_part(x as int),
{
    if x > 0 {
        x
    } else {
        0
    }
}

/// Whether `q` is how often `b` goes into `a`: what remains is smaller than `b`, and is on the same
/// side of zero as `a`.
pub open spec fn is_quotient(a: int, b: int, q: int) -> bool {
    let size = if b > 0 {
        b
    } else {
        -b
    };
    &&& a >= 0 ==> 0 <= a - q * b < size
    &&& a <= 0 ==> -size < a - q * b <= 0
}

/// Division rounds toward zero, whatever the signs.
pub proof fn division_rounds_toward_zero(a: int, b: int)
    requires
        b != 0,
    ensures
        is_quotient(a, b, quot(a, b)),
        a >= 0 && b > 0 ==> quot(a, b) * b <= a < quot(a, b) * b + b,
        a <= 0 && b > 0 ==> quot(a, b) * b - b < a <= quot(a, b) * b,
        a >= 0 && b < 0 ==> quot(a, b) * b <= a < quot(a, b) * b - b,
        a <= 0 && b < 0 ==> quot(a, b) * b + b < a <= quot(a, b) * b,
{
    let size = if b > 0 {
        b
    } else {
        -b
    };
    let dividend = if a >= 0 {
        a
    } else {
        -a
    };
    lemma_fundamental_div_mod(dividend, size);
    let d = dividend / size;
    let q = quot(a, b);
    assert(q * b == if a >= 0 {
        size * d
    } else {
        -(size * d)
    }) by (nonlinear_arith)
        requires
            b > 0 ==> size == b,
            b < 0 ==> size == -b,
            q == (if (a >= 0) == (b > 0) {
                d
            } else {
                -d
            }),
            b != 0,
    ;
}

/// There is one quotient only.
pub proof fn there_is_one_quotient(a: int, b: int, q: int)
    requires
        b != 0,
        is_quotient(a, b, q),
    ensures
        q == quot(a, b),
{
    division_rounds_toward_zero(a, b);
    let p = quot(a, b);
    assert(q == p) by (nonlinear_arith)
        requires
            b != 0,
            b > 0 ==> -b < p * b - q * b < b,
            b < 0 ==> b < p * b - q * b < -b,
    ;
}

/// What fits is what an `i128` holds: 127 bits and a sign.
pub proof fn what_fits_is_an_i128(x: int)
    ensures
        fits(x) <==> -0x8000_0000_0000_0000_0000_0000_0000_0000 <= x
            < 0x8000_0000_0000_0000_0000_0000_0000_0000,
{
}

/// The positive part of a number is the least number that is neither negative nor below it.
pub proof fn positive_part_is_least(x: int, y: int)
    ensures
        positive_part(x) >= 0,
        positive_part(x) >= x,
        y >= 0 && y >= x ==> y >= positive_part(x),
{
}

} // verus!
