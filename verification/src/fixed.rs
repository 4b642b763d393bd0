//! Fixed-point arithmetic over `i64` micro-units.
//!
//! A world-space quantity `q` is stored as the integer `q * SCALE` (so one
//! micro-unit is 1e-6 of a world unit).  Every operation rounds by
//! truncation toward zero and saturates at `FP_MAX`, which stands in for the
//! infinities a floating-point build would produce on a diverging
//! trajectory.  Each executable operation returns exactly the value of its
//! spec-level counterpart, so higher layers can state their contracts as
//! plain integer equations.

use vstd::arithmetic::div_mod::{
    lemma_div_is_ordered, lemma_div_by_multiple, lemma_div_pos_is_pos, lemma_div_nonincreasing,
};
use vstd::prelude::*;

verus! {

/// Micro-units per world unit.
pub const SCALE: i64 = 1_000_000;

/// Saturation bound for every stored fixed-point value (one million world
/// units); results beyond it are clamped, standing in for +/- infinity.
pub const FP_MAX: i64 = 1_000_000_000_000;

/// A value the arithmetic promises to keep its results within.
pub open spec fn bounded(v: int) -> bool {
    -FP_MAX <= v <= FP_MAX
}

/// Saturate an unbounded result into the representable range.
pub open spec fn clip(v: int) -> int {
    if v > FP_MAX {
        FP_MAX as int
    } else if v < -FP_MAX {
        -FP_MAX as int
    } else {
        v
    }
}

/// Division truncating toward zero (the rounding every operation uses),
/// defined for positive divisors.
pub open spec fn tdiv(a: int, b: int) -> int
    recommends
        b > 0,
{
    if a >= 0 {
        a / b
    } else {
        -((-a) / b)
    }
}

/// Truncating division never grows the magnitude of the dividend.
pub proof fn lemma_tdiv_bound(a: int, b: int)
    requires
        b > 0,
    ensures
        a >= 0 ==> 0 <= tdiv(a, b) <= a,
        a < 0 ==> a <= tdiv(a, b) <= 0,
{
    if a >= 0 {
        lemma_div_pos_is_pos(a, b);
        lemma_div_nonincreasing(a, b);
    } else {
        lemma_div_pos_is_pos(-a, b);
        lemma_div_nonincreasing(-a, b);
    }
}

/// If `0 <= a <= c * b` then `tdiv(a, b) <= c`.
pub proof fn lemma_tdiv_le(a: int, b: int, c: int)
    requires
        b > 0,
        0 <= a,
        0 <= c,
        a <= c * b,
    ensures
        tdiv(a, b) <= c,
{
    lemma_div_is_ordered(a, c * b, b);
    lemma_div_by_multiple(c, b);
}

/// Magnitudes multiply: the product of two bounded factors is bounded by the
/// product of the bounds.
pub proof fn lemma_mul_abs_bound(a: int, b: int, m: int, n: int)
    requires
        -m <= a <= m,
        -n <= b <= n,
    ensures
        -(m * n) <= a * b <= m * n,
{
    assert(-(m * n) <= a * b <= m * n) by (nonlinear_arith)
        requires
            -m <= a <= m,
            -n <= b <= n,
    ;
}

/// A square is never negative.
pub proof fn lemma_square_nonneg(a: int)
    ensures
        0 <= a * a,
{
    assert(0 <= a * a) by (nonlinear_arith);
}

/// Truncating division on `i128`, the working width of every product.
pub fn i128_tdiv(a: i128, b: i128) -> (r: i128)
    requires
        b > 0,
    ensures
        r == tdiv(a as int, b as int),
{
    proof {
        lemma_tdiv_bound(a as int, b as int);
    }
    match a.checked_div(b) {
        Some(q) => q,
        None => 0,  // unreachable: a positive divisor cannot overflow the quotient
    }
}

/// Saturate an `i128` intermediate into a bounded `i64`.
pub fn clip_i128(v: i128) -> (r: i64)
    ensures
        r == clip(v as int),
        bounded(r as int),
{
    if v > FP_MAX as i128 {
        FP_MAX
    } else if v < -(FP_MAX as i128) {
        -FP_MAX
    } else {
        v as i64
    }
}

/// Saturating addition, subtraction, negation, multiplication and division
/// at the spec level; the executable `fp_*` functions return exactly these
/// values.
pub open spec fn sadd(a: int, b: int) -> int {
    clip(a + b)
}

pub open spec fn ssub(a: int, b: int) -> int {
    clip(a - b)
}

pub open spec fn sneg(a: int) -> int {
    clip(-a)
}

pub open spec fn smul(a: int, b: int) -> int {
    clip(mul_val(a, b))
}

pub open spec fn sdiv(a: int, b: int) -> int {
    clip(div_val(a, b))
}

/// Saturating fixed-point addition.
pub fn fp_add(a: i64, b: i64) -> (r: i64)
    requires
        bounded(a as int),
        bounded(b as int),
    ensures
        r == sadd(a as int, b as int),
        bounded(r as int),
{
    clip_i128(a as i128 + b as i128)
}

/// Saturating fixed-point subtraction.
pub fn fp_sub(a: i64, b: i64) -> (r: i64)
    requires
        bounded(a as int),
        bounded(b as int),
    ensures
        r == ssub(a as int, b as int),
        bounded(r as int),
{
    clip_i128(a as i128 - b as i128)
}

/// Saturating negation.
pub fn fp_neg(a: i64) -> (r: i64)
    requires
        bounded(a as int),
    ensures
        r == sneg(a as int),
        bounded(r as int),
{
    clip_i128(-(a as i128))
}

/// The value of a fixed-point product before saturation.
pub open spec fn mul_val(a: int, b: int) -> int {
    tdiv(a * b, SCALE as int)
}

/// Saturating fixed-point multiplication: `(a * b) / SCALE`, truncated.
pub fn fp_mul(a: i64, b: i64) -> (r: i64)
    requires
        bounded(a as int),
        bounded(b as int),
    ensures
        r == smul(a as int, b as int),
        bounded(r as int),
{
    proof {
        lemma_mul_abs_bound(a as int, b as int, FP_MAX as int, FP_MAX as int);
    }
    let p: i128 = (a as i128) * (b as i128);
    let q = i128_tdiv(p, SCALE as i128);
    clip_i128(q)
}

/// The value of a fixed-point quotient before saturation: `(a * SCALE) / b`,
/// truncated; a zero divisor saturates with the sign of the dividend, as a
/// float build would produce a signed infinity.
pub open spec fn div_val(a: int, b: int) -> int {
    if b == 0 {
        if a > 0 {
            FP_MAX as int
        } else if a < 0 {
            -FP_MAX as int
        } else {
            0
        }
    } else {
        tdiv(a * SCALE, b)
    }
}

/// Saturating fixed-point division by a non-negative divisor.
pub fn fp_div(a: i64, b: i64) -> (r: i64)
    requires
        -4 * FP_MAX <= a <= 4 * FP_MAX,
        0 <= b,
        b <= 4 * FP_MAX,
    ensures
        r == sdiv(a as int, b as int),
        bounded(r as int),
{
    if b == 0 {
        if a > 0 {
            FP_MAX
        } else if a < 0 {
            -FP_MAX
        } else {
            0
        }
    } else {
        proof {
            lemma_mul_abs_bound(a as int, SCALE as int, 4 * FP_MAX as int, SCALE as int);
        }
        let p: i128 = (a as i128) * (SCALE as i128);
        let q = i128_tdiv(p, b as i128);
        clip_i128(q)
    }
}

/// Multiplying by one (`SCALE` in fixed point) is exact for bounded values.
pub proof fn lemma_smul_one(a: int)
    requires
        bounded(a),
    ensures
        smul(a, SCALE as int) == a,
{
    if a >= 0 {
        lemma_div_by_multiple(a, SCALE as int);
    } else {
        assert(-(a * SCALE) == (-a) * SCALE) by (nonlinear_arith);
        lemma_div_by_multiple(-a, SCALE as int);
    }
}

/// Largest argument the square root accepts (2^84); every sum of squares of
/// bounded differences stays far below it.
pub const SQRT_ARG_MAX: u128 = 19_342_813_113_834_066_795_298_816;

/// The integer square root, rounded down: the unique `r >= 0` with
/// `r * r <= v < (r + 1) * (r + 1)`.
pub open spec fn sqrt_floor(v: int) -> int {
    choose|r: int| 0 <= r && #[trigger] (r * r) <= v && v < (r + 1) * (r + 1)
}

/// A witness pins the square root down: any `r` satisfying the rounding
/// characterization is `sqrt_floor(v)`.
pub proof fn lemma_sqrt_floor_of(v: int, r: int)
    requires
        0 <= r,
        r * r <= v,
        v < (r + 1) * (r + 1),
    ensures
        sqrt_floor(v) == r,
{
    let s = sqrt_floor(v);
    assert(0 <= s && s * s <= v && v < (s + 1) * (s + 1));
    assert(s == r) by (nonlinear_arith)
        requires
            0 <= r,
            r * r <= v,
            v < (r + 1) * (r + 1),
            0 <= s,
            s * s <= v,
            v < (s + 1) * (s + 1),
    ;
}

/// Integer square root by bisection.
pub fn isqrt(v: u128) -> (r: u64)
    requires
        v < SQRT_ARG_MAX,
    ensures
        r * r <= v,
        v < (r + 1) * (r + 1),
        r == sqrt_floor(v as int),
{
    let mut lo: u64 = 0;
    let mut hi: u64 = 4_398_046_511_104;  // 2^42, whose square is SQRT_ARG_MAX
    proof {
        assert((hi as int) * (hi as int) == SQRT_ARG_MAX);
    }
    while hi - lo > 1
        invariant
            lo < hi,
            hi <= 4_398_046_511_104,
            (lo as int) * (lo as int) <= v as int,
            (v as int) < (hi as int) * (hi as int),
        decreases hi - lo,
    {
        let mid = lo + (hi - lo) / 2;
        proof {
            lemma_mul_abs_bound(mid as int, mid as int, 4_398_046_511_104, 4_398_046_511_104);
        }
        if (mid as u128) * (mid as u128) <= v {
            lo = mid;
        } else {
            hi = mid;
        }
    }
    proof {
        lemma_sqrt_floor_of(v as int, lo as int);
    }
    lo
}

} // verus!
