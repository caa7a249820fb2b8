//! Fixed-point conventions shared by the field and the particles.
use vstd::arithmetic::div_mod::{
    lemma_div_by_multiple, lemma_div_by_multiple_is_strongly_ordered, lemma_div_is_ordered,
    lemma_div_pos_is_pos,
};
use vstd::arithmetic::mul::{
    lemma_mul_inequality, lemma_mul_is_commutative, lemma_mul_nonnegative,
    lemma_mul_strict_inequality,
};
use vstd::prelude::*;

verus! {

/// Sub-units per pixel, and per unit of magnitude or direction component.
pub const FIXED_ONE: i64 = 1024;

/// Angle units in one full turn: directions lie in `[0, ANGLE_TURN)`.
pub const ANGLE_TURN: u32 = 65536;

/// Quantized value of raw noise at its nominal extremes `-1` and `1`.
pub const RAW_NOISE_ONE: i32 = 65536;

/// Quotient of `a` by a positive `d`, rounded toward zero (Rust's `/`).
pub open spec fn div_toward_zero(a: int, d: int) -> int {
    if a >= 0 {
        a / d
    } else {
        -((-a) / d)
    }
}

/// `a + b`, held at the bounds of `i64`.
pub open spec fn saturate_i64(a: int, b: int) -> int {
    if a + b > i64::MAX {
        i64::MAX as int
    } else if a + b < i64::MIN {
        i64::MIN as int
    } else {
        a + b
    }
}

/// Scaling `k` by the fraction `n / d` (with `0 <= n <= d`) stays within
/// `[0, k]`, and below `k` when the fraction is below one.
pub proof fn lemma_scale_bounds(n: int, k: int, d: int)
    requires
        0 <= n <= d,
        0 <= k,
        0 < d,
    ensures
        0 <= n * k / d <= k,
        n < d && k > 0 ==> n * k / d < k,
{
    lemma_mul_inequality(n, d, k);
    lemma_mul_is_commutative(d, k);
    lemma_mul_nonnegative(n, k);
    lemma_div_is_ordered(n * k, k * d, d);
    lemma_div_by_multiple(k, d);
    lemma_div_pos_is_pos(n * k, d);
    if n < d && k > 0 {
        lemma_mul_strict_inequality(n, d, k);
        lemma_div_by_multiple_is_strongly_ordered(n * k, k * d, k, d);
    }
}

/// Divides rounding toward zero.
pub fn divide_toward_zero(a: i64, d: i64) -> (r: i64)
    requires
        d > 0,
        a > i64::MIN,
    ensures
        r == div_toward_zero(a as int, d as int),
{
    if a >= 0 {
        ((a as u64) / (d as u64)) as i64
    } else {
        let n: u64 = (-a) as u64;
        -((n / (d as u64)) as i64)
    }
}

/// Adds, holding the sum at the bounds of `i64`.
pub fn saturating_add_i64(a: i64, b: i64) -> (r: i64)
    ensures
        r == saturate_i64(a as int, b as int),
{
    match a.checked_add(b) {
        Some(s) => s,
        None => {
            if b > 0 {
                i64::MAX
            } else {
                i64::MIN
            }
        },
    }
}

} // verus!
