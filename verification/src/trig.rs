//! Fixed-point sine and cosine.
//!
//! An angle is a raw fixed-point value (44 fractional bits, radians). The
//! argument is first reduced into [0, 2π), then folded into [0, π/2] by the
//! quadrant symmetries, and the remaining arc is evaluated with a truncated
//! Taylor polynomial in Horner form. Every step is mirrored exactly by a
//! specification function, so `cos_fx` and `sin_fx` are pure, fully
//! specified functions of their argument.

use vstd::prelude::*;
use crate::fx::{FX_ONE, abs_i, fx_add, fx_add_s, fx_mul, fx_mul_s, fx_neg, fx_neg_s};

verus! {

/// π in the fixed-point scale.
pub const FX_PI: i64 = 55267482437722;

/// 2π in the fixed-point scale.
pub const FX_TWO_PI: i64 = 110534964875444;

/// π/2 in the fixed-point scale.
pub const FX_HALF_PI: i64 = 27633741218861;

/// 3π/2 in the fixed-point scale.
pub const FX_PI3_2: i64 = 82901223656583;

/// Taylor coefficients of cosine, `(-1)^k / (2k)!`, in the fixed-point scale.
pub const COS_C0: i64 = 17592186044416;

pub const COS_C1: i64 = -8796093022208;

pub const COS_C2: i64 = 733007751851;

pub const COS_C3: i64 = -24433591728;

pub const COS_C4: i64 = 436314138;

pub const COS_C5: i64 = -4847935;

pub const COS_C6: i64 = 36727;

pub const COS_C7: i64 = -202;

pub const COS_C8: i64 = 1;

/// Taylor coefficients of sine, `(-1)^k / (2k+1)!`, in the fixed-point scale.
pub const SIN_S0: i64 = 17592186044416;

pub const SIN_S1: i64 = -2932031007403;

pub const SIN_S2: i64 = 146601550370;

pub const SIN_S3: i64 = -3490513104;

pub const SIN_S4: i64 = 48479349;

pub const SIN_S5: i64 = -440721;

pub const SIN_S6: i64 = 2825;

pub const SIN_S7: i64 = -13;

/// Cosine polynomial on the reduced arc, evaluated in Horner form on x².
pub open spec fn cos_core_s(x: int) -> int {
    let y = fx_mul_s(x, x);
    let a8 = COS_C8 as int;
    let a7 = fx_add_s(COS_C7 as int, fx_mul_s(y, a8));
    let a6 = fx_add_s(COS_C6 as int, fx_mul_s(y, a7));
    let a5 = fx_add_s(COS_C5 as int, fx_mul_s(y, a6));
    let a4 = fx_add_s(COS_C4 as int, fx_mul_s(y, a5));
    let a3 = fx_add_s(COS_C3 as int, fx_mul_s(y, a4));
    let a2 = fx_add_s(COS_C2 as int, fx_mul_s(y, a3));
    let a1 = fx_add_s(COS_C1 as int, fx_mul_s(y, a2));
    fx_add_s(COS_C0 as int, fx_mul_s(y, a1))
}

/// Sine polynomial on the reduced arc: x times a Horner polynomial on x².
pub open spec fn sin_core_s(x: int) -> int {
    let y = fx_mul_s(x, x);
    let a7 = SIN_S7 as int;
    let a6 = fx_add_s(SIN_S6 as int, fx_mul_s(y, a7));
    let a5 = fx_add_s(SIN_S5 as int, fx_mul_s(y, a6));
    let a4 = fx_add_s(SIN_S4 as int, fx_mul_s(y, a5));
    let a3 = fx_add_s(SIN_S3 as int, fx_mul_s(y, a4));
    let a2 = fx_add_s(SIN_S2 as int, fx_mul_s(y, a3));
    let a1 = fx_add_s(SIN_S1 as int, fx_mul_s(y, a2));
    let a0 = fx_add_s(SIN_S0 as int, fx_mul_s(y, a1));
    fx_mul_s(x, a0)
}

/// The argument reduced into [0, 2π), preserving the angle it stands for.
pub open spec fn norm_angle_s(x: int) -> int {
    let m = abs_i(x) % (FX_TWO_PI as int);
    if x >= 0 {
        m
    } else if m == 0 {
        0
    } else {
        (FX_TWO_PI as int) - m
    }
}

/// Fixed-point cosine of an arbitrary raw angle.
pub open spec fn cos_fx_s(x: int) -> int {
    let r = norm_angle_s(x);
    if r < FX_HALF_PI as int {
        cos_core_s(r)
    } else if r < FX_PI as int {
        fx_neg_s(cos_core_s((FX_PI as int) - r))
    } else if r < FX_PI3_2 as int {
        fx_neg_s(cos_core_s(r - (FX_PI as int)))
    } else {
        cos_core_s((FX_TWO_PI as int) - r)
    }
}

/// Fixed-point sine of an arbitrary raw angle.
pub open spec fn sin_fx_s(x: int) -> int {
    let r = norm_angle_s(x);
    if r < FX_HALF_PI as int {
        sin_core_s(r)
    } else if r < FX_PI as int {
        sin_core_s((FX_PI as int) - r)
    } else if r < FX_PI3_2 as int {
        fx_neg_s(sin_core_s(r - (FX_PI as int)))
    } else {
        fx_neg_s(sin_core_s((FX_TWO_PI as int) - r))
    }
}

fn cos_core(x: i64) -> (r: i64)
    ensures
        r as int == cos_core_s(x as int),
{
    let y = fx_mul(x, x);
    let a8 = COS_C8;
    let a7 = fx_add(COS_C7, fx_mul(y, a8));
    let a6 = fx_add(COS_C6, fx_mul(y, a7));
    let a5 = fx_add(COS_C5, fx_mul(y, a6));
    let a4 = fx_add(COS_C4, fx_mul(y, a5));
    let a3 = fx_add(COS_C3, fx_mul(y, a4));
    let a2 = fx_add(COS_C2, fx_mul(y, a3));
    let a1 = fx_add(COS_C1, fx_mul(y, a2));
    fx_add(COS_C0, fx_mul(y, a1))
}

fn sin_core(x: i64) -> (r: i64)
    ensures
        r as int == sin_core_s(x as int),
{
    let y = fx_mul(x, x);
    let a7 = SIN_S7;
    let a6 = fx_add(SIN_S6, fx_mul(y, a7));
    let a5 = fx_add(SIN_S5, fx_mul(y, a6));
    let a4 = fx_add(SIN_S4, fx_mul(y, a5));
    let a3 = fx_add(SIN_S3, fx_mul(y, a4));
    let a2 = fx_add(SIN_S2, fx_mul(y, a3));
    let a1 = fx_add(SIN_S1, fx_mul(y, a2));
    let a0 = fx_add(SIN_S0, fx_mul(y, a1));
    fx_mul(x, a0)
}

fn norm_angle(x: i64) -> (r: i64)
    ensures
        r as int == norm_angle_s(x as int),
        0 <= r < FX_TWO_PI,
{
    let ax: u128 = if x >= 0 {
        x as u128
    } else {
        (-(x as i128)) as u128
    };
    let m: u128 = ax % (FX_TWO_PI as u128);
    if x >= 0 {
        m as i64
    } else if m == 0 {
        0
    } else {
        FX_TWO_PI - (m as i64)
    }
}

/// Fixed-point cosine of an arbitrary raw angle.
pub fn cos_fx(x: i64) -> (r: i64)
    ensures
        r as int == cos_fx_s(x as int),
{
    let red = norm_angle(x);
    if red < FX_HALF_PI {
        cos_core(red)
    } else if red < FX_PI {
        fx_neg(cos_core(FX_PI - red))
    } else if red < FX_PI3_2 {
        fx_neg(cos_core(red - FX_PI))
    } else {
        cos_core(FX_TWO_PI - red)
    }
}

/// Fixed-point sine of an arbitrary raw angle.
pub fn sin_fx(x: i64) -> (r: i64)
    ensures
        r as int == sin_fx_s(x as int),
{
    let red = norm_angle(x);
    if red < FX_HALF_PI {
        sin_core(red)
    } else if red < FX_PI {
        sin_core(FX_PI - red)
    } else if red < FX_PI3_2 {
        fx_neg(sin_core(red - FX_PI))
    } else {
        fx_neg(sin_core(FX_TWO_PI - red))
    }
}

/// The fixed-point cosine of a zero angle is exactly one.
pub proof fn lemma_cos_zero()
    ensures
        cos_fx_s(0) == FX_ONE as int,
{
    assert(abs_i(0) % (FX_TWO_PI as int) == 0);
    crate::fx::lemma_fx_mul_zero(0);
    crate::fx::lemma_fx_mul_zero(COS_C8 as int);
    crate::fx::lemma_fx_mul_zero(fx_add_s(COS_C7 as int, 0));
    crate::fx::lemma_fx_mul_zero(fx_add_s(COS_C6 as int, 0));
    crate::fx::lemma_fx_mul_zero(fx_add_s(COS_C5 as int, 0));
    crate::fx::lemma_fx_mul_zero(fx_add_s(COS_C4 as int, 0));
    crate::fx::lemma_fx_mul_zero(fx_add_s(COS_C3 as int, 0));
    crate::fx::lemma_fx_mul_zero(fx_add_s(COS_C2 as int, 0));
    crate::fx::lemma_fx_mul_zero(fx_add_s(COS_C1 as int, 0));
}

/// The fixed-point sine of a zero angle is exactly zero.
pub proof fn lemma_sin_zero()
    ensures
        sin_fx_s(0) == 0,
{
    assert(abs_i(0) % (FX_TWO_PI as int) == 0);
    crate::fx::lemma_fx_mul_zero(0);
    let y = fx_mul_s(0, 0);
    let a7 = SIN_S7 as int;
    let a6 = fx_add_s(SIN_S6 as int, fx_mul_s(y, a7));
    let a5 = fx_add_s(SIN_S5 as int, fx_mul_s(y, a6));
    let a4 = fx_add_s(SIN_S4 as int, fx_mul_s(y, a5));
    let a3 = fx_add_s(SIN_S3 as int, fx_mul_s(y, a4));
    let a2 = fx_add_s(SIN_S2 as int, fx_mul_s(y, a3));
    let a1 = fx_add_s(SIN_S1 as int, fx_mul_s(y, a2));
    let a0 = fx_add_s(SIN_S0 as int, fx_mul_s(y, a1));
    crate::fx::lemma_fx_mul_zero(a0);
}

} // verus!
