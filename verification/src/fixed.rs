//! Fixed-point arithmetic.
//!
//! Every quantity of the simulation (a coordinate, a speed, an angle in radians,
//! a time step in seconds, a stick deflection) is an `i64` that counts
//! millionths: the number 1.5 is stored as `1_500_000`. Sums are exact; a
//! product is rounded toward zero, so that mirrored inputs give mirrored
//! results; a result that does not fit in an `i64` is held at the nearest bound.

use vstd::prelude::*;

verus! {

/// The stored form of the number one.
pub const UNIT: i64 = 1_000_000;

/// The quotient of `n` by a positive `d`, rounded toward zero.
pub open spec fn trunc_div(n: int, d: int) -> int
    recommends
        d > 0,
{
    if n >= 0 {
        n / d
    } else {
        -((-n) / d)
    }
}

/// `v` held within the range of an `i64`.
pub open spec fn saturate(v: int) -> int {
    if v < i64::MIN {
        i64::MIN as int
    } else if v > i64::MAX {
        i64::MAX as int
    } else {
        v
    }
}

/// `v` held within `[lo, hi]`.
pub open spec fn clamp(v: int, lo: int, hi: int) -> int
    recommends
        lo <= hi,
{
    if v < lo {
        lo
    } else if v > hi {
        hi
    } else {
        v
    }
}

/// The product of two stored numbers, as a stored number, before it is cut to size.
pub open spec fn product(a: int, b: int) -> int {
    trunc_div(a * b, UNIT as int)
}

/// The product of two stored numbers, as a stored number.
pub open spec fn times(a: int, b: int) -> int {
    saturate(product(a, b))
}

/// The sum of two stored numbers, as a stored number.
pub open spec fn plus(a: int, b: int) -> int {
    saturate(a + b)
}

/// The share `num / den` of `v`, with a positive `den`.
pub open spec fn share(v: int, num: int, den: int) -> int
    recommends
        den > 0,
{
    saturate(trunc_div(v * num, den))
}

/// A product of two numbers between `-m` and `m` lies between `-m * m` and
/// `m * m`.
pub proof fn lemma_product_bound(a: int, b: int, m: int)
    by (nonlinear_arith)
    requires
        -m <= a <= m,
        -m <= b <= m,
    ensures
        -(m * m) <= a * b <= m * m,
{
}

/// Rounding toward zero commutes with negation.
pub proof fn lemma_trunc_div_neg(n: int, d: int)
    requires
        d >= 1,
    ensures
        trunc_div(-n, d) == -trunc_div(n, d),
{
    if n == 0 {
        assert(0int / d == 0) by (nonlinear_arith)
            requires
                d >= 1,
        ;
    }
}

/// Cuts a wide intermediate value to an `i64`.
pub fn narrow(v: i128) -> (r: i64)
    ensures
        r == saturate(v as int),
{
    if v < i64::MIN as i128 {
        i64::MIN
    } else if v > i64::MAX as i128 {
        i64::MAX
    } else {
        v as i64
    }
}

/// The exact product of two stored numbers, rounded toward zero.
pub fn wide_mul(a: i64, b: i64) -> (r: i128)
    ensures
        r == product(a as int, b as int),
        -0x4000_0000_0000_0000_0000_0000_0000_0000 <= r <= 0x4000_0000_0000_0000_0000_0000_0000_0000,
{
    proof {
        lemma_product_bound(a as int, b as int, 0x8000_0000_0000_0000);
    }
    let p: i128 = (a as i128) * (b as i128);
    p / (UNIT as i128)
}

/// Multiplies two stored numbers.
pub fn mul_fixed(a: i64, b: i64) -> (r: i64)
    ensures
        r == times(a as int, b as int),
{
    narrow(wide_mul(a, b))
}

/// Adds two stored numbers.
pub fn add_fixed(a: i64, b: i64) -> (r: i64)
    ensures
        r == plus(a as int, b as int),
{
    narrow(a as i128 + b as i128)
}

/// Takes the share `num / den` of a stored number.
pub fn share_of(v: i64, num: i64, den: i64) -> (r: i64)
    requires
        den > 0,
    ensures
        r == share(v as int, num as int, den as int),
{
    proof {
        lemma_product_bound(v as int, num as int, 0x8000_0000_0000_0000);
    }
    let p: i128 = (v as i128) * (num as i128);
    narrow(p / (den as i128))
}

} // verus!
