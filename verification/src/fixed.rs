//! Fixed-point arithmetic for the rasterization pipeline.
//!
//! A coordinate is an `i64` holding `FX_ONE` times its real value
//! (so `FX_ONE` itself stands for 1.0). Every operation is total:
//! multiplication and division truncate toward zero, as the hardware
//! division does, and every result saturates at the `i64` range.

use vstd::prelude::*;

verus! {

/// The fixed-point scale: the representation of 1.0.
pub const FX_ONE: i64 = 1024;

/// Clamp an unbounded integer into the `i64` range.
pub open spec fn sat64(x: int) -> int {
    if x > i64::MAX {
        i64::MAX as int
    } else if x < i64::MIN {
        i64::MIN as int
    } else {
        x
    }
}

/// Division truncating toward zero, total: division by zero yields zero.
/// (Spec-level `/` is Euclidean; this matches what machine division does.)
pub open spec fn tdiv(x: int, d: int) -> int {
    if d == 0 {
        0
    } else if x == 0 {
        0
    } else if x > 0 && d > 0 {
        x / d
    } else if x < 0 && d < 0 {
        (x * -1) / (d * -1)
    } else if x < 0 {
        ((x * -1) / d) * -1
    } else {
        (x / (d * -1)) * -1
    }
}

/// Saturating fixed-point addition.
pub open spec fn fx_add_s(a: int, b: int) -> int {
    sat64(a + b)
}

/// Saturating fixed-point subtraction.
pub open spec fn fx_sub_s(a: int, b: int) -> int {
    sat64(a - b)
}

/// Saturating fixed-point multiplication: `(a * b) / FX_ONE`, truncated.
pub open spec fn fx_mul_s(a: int, b: int) -> int {
    sat64(tdiv(a * b, FX_ONE as int))
}

/// Saturating fixed-point division: `(a * FX_ONE) / b`, truncated;
/// zero when the divisor is zero.
pub open spec fn fx_div_s(a: int, b: int) -> int {
    sat64(tdiv(a * (FX_ONE as int), b))
}

/// Clamp an `i128` into the `i64` range.
fn sat64_exec(x: i128) -> (r: i64)
    ensures
        r as int == sat64(x as int),
{
    if x > i64::MAX as i128 {
        i64::MAX
    } else if x < i64::MIN as i128 {
        i64::MIN
    } else {
        x as i64
    }
}

/// The product of two `i64` values always fits in `i128`.
proof fn lemma_i64_mul_fits_i128(a: int, b: int)
    requires
        i64::MIN <= a <= i64::MAX,
        i64::MIN <= b <= i64::MAX,
    ensures
        i128::MIN <= a * b <= i128::MAX,
{
    assert(i128::MIN <= a * b <= i128::MAX) by (nonlinear_arith)
        requires
            -0x8000_0000_0000_0000 <= a <= 0x7fff_ffff_ffff_ffff,
            -0x8000_0000_0000_0000 <= b <= 0x7fff_ffff_ffff_ffff,
    ;
}

/// A product of values within given magnitudes stays within the product
/// of the magnitudes (and so, when that fits, within `i128`).
pub proof fn lemma_small_mul_fits_i128(a: int, b: int, bound_a: int, bound_b: int)
    requires
        0 <= bound_a,
        0 <= bound_b,
        -bound_a <= a <= bound_a,
        -bound_b <= b <= bound_b,
        bound_a * bound_b <= i128::MAX,
    ensures
        i128::MIN <= a * b <= i128::MAX,
        -(bound_a * bound_b) <= a * b <= bound_a * bound_b,
{
    assert(-(bound_a * bound_b) <= a * b <= bound_a * bound_b) by (nonlinear_arith)
        requires
            0 <= bound_a,
            0 <= bound_b,
            -bound_a <= a <= bound_a,
            -bound_b <= b <= bound_b,
    ;
}

/// Truncating division of an `i128`, saturated into `i64`; total.
pub(crate) fn div_sat64(x: i128, d: i128) -> (r: i64)
    ensures
        r as int == sat64(tdiv(x as int, d as int)),
{
    if d == 0 {
        0
    } else {
        match x.checked_div(d) {
            Some(q) => sat64_exec(q),
            None => {
                // only i128::MIN / -1 overflows; its quotient is above i64::MAX
                i64::MAX
            },
        }
    }
}

/// Saturating fixed-point addition.
pub fn fx_add(a: i64, b: i64) -> (r: i64)
    ensures
        r as int == fx_add_s(a as int, b as int),
{
    sat64_exec(a as i128 + b as i128)
}

/// Saturating fixed-point subtraction.
pub fn fx_sub(a: i64, b: i64) -> (r: i64)
    ensures
        r as int == fx_sub_s(a as int, b as int),
{
    sat64_exec(a as i128 - b as i128)
}

/// Saturating fixed-point multiplication.
pub fn fx_mul(a: i64, b: i64) -> (r: i64)
    ensures
        r as int == fx_mul_s(a as int, b as int),
{
    proof {
        lemma_i64_mul_fits_i128(a as int, b as int);
    }
    let p: i128 = (a as i128) * (b as i128);
    div_sat64(p, FX_ONE as i128)
}

/// Saturating fixed-point division; zero when the divisor is zero.
pub fn fx_div(a: i64, b: i64) -> (r: i64)
    ensures
        r as int == fx_div_s(a as int, b as int),
{
    proof {
        lemma_i64_mul_fits_i128(a as int, FX_ONE as int);
    }
    let p: i128 = (a as i128) * (FX_ONE as i128);
    div_sat64(p, b as i128)
}

} // verus!
