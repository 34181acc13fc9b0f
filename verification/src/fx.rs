//! Fixed-point scalar arithmetic.
//!
//! Every physical quantity in this crate (mass, length, angle, angular
//! velocity, time) is carried as an `i64` holding a fixed-point number with
//! 44 fractional bits: a raw value `v` stands for the real number `v / 2^44`.
//! Products and quotients are truncated toward zero and every operation
//! saturates at the `i64` range, so each operation is a total function of its
//! arguments and has an exact specification-level mirror.

use vstd::prelude::*;

verus! {

/// The fixed-point representation of 1: two to the 44th power.
pub const FX_ONE: i64 = 17592186044416;

/// 2^63 as `u128`: the magnitude at which a negative result saturates.
const MAG_MIN: u128 = 9223372036854775808;

/// 2^63 - 1 as `u128`: the magnitude at which a positive result saturates.
const MAG_MAX: u128 = 9223372036854775807;

/// Clamp a mathematical integer into the `i64` range.
pub open spec fn sat64(x: int) -> int {
    if x < i64::MIN as int {
        i64::MIN as int
    } else if x > i64::MAX as int {
        i64::MAX as int
    } else {
        x
    }
}

/// Absolute value of a mathematical integer.
pub open spec fn abs_i(x: int) -> int {
    if x >= 0 {
        x
    } else {
        -x
    }
}

/// Saturating addition of two raw fixed-point values.
pub open spec fn fx_add_s(a: int, b: int) -> int {
    sat64(a + b)
}

/// Saturating subtraction of two raw fixed-point values.
pub open spec fn fx_sub_s(a: int, b: int) -> int {
    sat64(a - b)
}

/// Saturating negation of a raw fixed-point value.
pub open spec fn fx_neg_s(a: int) -> int {
    sat64(-a)
}

/// Fixed-point product: the exact integer product scaled down by 2^44,
/// truncated toward zero, then saturated to the `i64` range.
pub open spec fn fx_mul_s(a: int, b: int) -> int {
    let q = (abs_i(a) * abs_i(b)) / (FX_ONE as int);
    if (a < 0) != (b < 0) {
        sat64(-q)
    } else {
        sat64(q)
    }
}

/// Fixed-point quotient: the dividend scaled up by 2^44 divided by the
/// divisor, truncated toward zero, then saturated to the `i64` range.
pub open spec fn fx_div_s(a: int, b: int) -> int
    recommends
        b != 0,
{
    if b == 0 {
        0
    } else {
        let q = (abs_i(a) * (FX_ONE as int)) / abs_i(b);
        if (a < 0) != (b < 0) {
            sat64(-q)
        } else {
            sat64(q)
        }
    }
}

/// View of a raw fixed-point vector as a sequence of mathematical integers.
pub open spec fn lift_s(v: Seq<i64>) -> Seq<int> {
    v.map_values(|x: i64| x as int)
}

/// Magnitude of an `i64` as a `u128`.
fn mag(a: i64) -> (r: u128)
    ensures
        r as int == abs_i(a as int),
        r <= MAG_MIN,
{
    if a >= 0 {
        a as u128
    } else {
        (-(a as i128)) as u128
    }
}

/// Saturating fixed-point addition.
pub fn fx_add(a: i64, b: i64) -> (r: i64)
    ensures
        r as int == fx_add_s(a as int, b as int),
{
    let s: i128 = (a as i128) + (b as i128);
    if s > (i64::MAX as i128) {
        i64::MAX
    } else if s < (i64::MIN as i128) {
        i64::MIN
    } else {
        s as i64
    }
}

/// Saturating fixed-point subtraction.
pub fn fx_sub(a: i64, b: i64) -> (r: i64)
    ensures
        r as int == fx_sub_s(a as int, b as int),
{
    let s: i128 = (a as i128) - (b as i128);
    if s > (i64::MAX as i128) {
        i64::MAX
    } else if s < (i64::MIN as i128) {
        i64::MIN
    } else {
        s as i64
    }
}

/// Saturating fixed-point negation.
pub fn fx_neg(a: i64) -> (r: i64)
    ensures
        r as int == fx_neg_s(a as int),
{
    if a == i64::MIN {
        i64::MAX
    } else {
        -a
    }
}

/// Truncating, saturating fixed-point multiplication.
pub fn fx_mul(a: i64, b: i64) -> (r: i64)
    ensures
        r as int == fx_mul_s(a as int, b as int),
{
    let am = mag(a);
    let bm = mag(b);
    proof {
        assert(am * bm <= MAG_MIN * MAG_MIN) by (nonlinear_arith)
            requires
                am <= MAG_MIN,
                bm <= MAG_MIN,
        ;
    }
    let p: u128 = am * bm;
    let q: u128 = p / (FX_ONE as u128);
    if (a < 0) != (b < 0) {
        if q >= MAG_MIN {
            i64::MIN
        } else {
            (-(q as i128)) as i64
        }
    } else {
        if q > MAG_MAX {
            i64::MAX
        } else {
            q as i64
        }
    }
}

/// Truncating, saturating fixed-point division.
pub fn fx_div(a: i64, b: i64) -> (r: i64)
    requires
        b != 0,
    ensures
        r as int == fx_div_s(a as int, b as int),
{
    let am = mag(a);
    let bm = mag(b);
    proof {
        assert(am * (FX_ONE as u128) <= MAG_MIN * (FX_ONE as u128)) by (nonlinear_arith)
            requires
                am <= MAG_MIN,
        ;
    }
    let p: u128 = am * (FX_ONE as u128);
    let q: u128 = p / bm;
    if (a < 0) != (b < 0) {
        if q >= MAG_MIN {
            i64::MIN
        } else {
            (-(q as i128)) as i64
        }
    } else {
        if q > MAG_MAX {
            i64::MAX
        } else {
            q as i64
        }
    }
}

/// Multiplication by zero gives exactly zero.
pub proof fn lemma_fx_mul_zero(a: int)
    ensures
        fx_mul_s(a, 0) == 0,
        fx_mul_s(0, a) == 0,
{
    assert(abs_i(a) * 0 == 0);
    assert(0int / (FX_ONE as int) == 0);
}

/// Multiplication by the fixed-point one is exact.
pub proof fn lemma_fx_mul_one(a: int)
    requires
        i64::MIN as int <= a <= i64::MAX as int,
    ensures
        fx_mul_s(a, FX_ONE as int) == a,
{
    vstd::arithmetic::div_mod::lemma_div_by_multiple(abs_i(a), FX_ONE as int);
    assert(abs_i(a) * (FX_ONE as int) == abs_i(a) * (FX_ONE as int));
}

/// Adding zero, subtracting zero, negating zero, dividing zero: all exact.
pub proof fn lemma_fx_zero_ops(a: int, b: int)
    requires
        i64::MIN as int <= a <= i64::MAX as int,
        b != 0,
    ensures
        fx_add_s(a, 0) == a,
        fx_add_s(0, a) == a,
        fx_sub_s(a, 0) == a,
        fx_neg_s(0) == 0,
        fx_div_s(0, b) == 0,
{
    assert(0int * (FX_ONE as int) == 0);
    assert(0int / abs_i(b) == 0);
}

} // verus!
