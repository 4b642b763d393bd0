//! Fixed-point circular functions.
//!
//! The library defines its own sine, cosine, arctangent and arccosine over
//! micro-unit angles, each as a total integer-valued function:
//! - `sin_fp` / `cos_fp`: exact Euclidean reduction modulo `TAU_FP` followed
//!   by Bhaskara's rational approximation on each half period, so both are
//!   exactly periodic with period `TAU_FP`;
//! - `atan_fp`: an odd polynomial approximation on `[-1, 1]`, extended by
//!   the reciprocal identity and clamped into `[-HALF_PI_FP, HALF_PI_FP]`;
//! - `acos_fp`: a square-root-weighted polynomial on `[0, 1]`, mirrored to
//!   `[-1, 0]`; it is exact at the domain endpoints, in particular
//!   `acos_fp(-SCALE) == PI_FP`.
//!
//! Every executable function returns exactly the value of its spec-level
//! definition, so callers reason about one model.

use crate::fixed::{
    bounded, i128_tdiv, isqrt, lemma_mul_abs_bound, lemma_sqrt_floor_of, lemma_tdiv_le,
    sqrt_floor, tdiv, SCALE,
};
use vstd::arithmetic::div_mod::{
    lemma_div_by_multiple, lemma_div_is_ordered_by_denominator, lemma_div_pos_is_pos,
    lemma_mod_add_multiples_vanish, lemma_mod_division_less_than_divisor,
};
use vstd::prelude::*;

verus! {

/// Pi in micro-radians.
pub const PI_FP: i64 = 3_141_593;

/// One full turn in micro-radians (twice `PI_FP`).
pub const TAU_FP: i64 = 6_283_186;

/// Half pi in micro-radians.
pub const HALF_PI_FP: i64 = 1_570_796;

/// Quarter pi in micro-radians, the linear coefficient of the arctangent
/// approximation.
pub const QUARTER_PI_FP: i64 = 785_398;

/// Arctangent correction coefficients (0.2447 and 0.0663 in micro-units).
pub const ATAN_C1: i64 = 244_700;

pub const ATAN_C2: i64 = 66_300;

/// Arccosine polynomial coefficients (1.5707288, 0.2121144, 0.0742610 and
/// 0.0187293 in micro-units).
pub const ACOS_A0: i64 = 1_570_729;

pub const ACOS_A1: i64 = 212_114;

pub const ACOS_A2: i64 = 74_261;

pub const ACOS_A3: i64 = 18_729;

/// Clamp `v` into `[lo, hi]`.
pub open spec fn clamp(v: int, lo: int, hi: int) -> int {
    if v < lo {
        lo
    } else if v > hi {
        hi
    } else {
        v
    }
}

/// Clamp an `i128` intermediate into an `i64` interval.
pub fn clamp_i128(v: i128, lo: i64, hi: i64) -> (r: i64)
    requires
        lo <= hi,
    ensures
        r == clamp(v as int, lo as int, hi as int),
{
    if v < lo as i128 {
        lo
    } else if v > hi as i128 {
        hi
    } else {
        v as i64
    }
}

/// An angle reduced into `[0, TAU_FP)` by Euclidean remainder.
pub open spec fn wrap_tau(x: int) -> int {
    x % (TAU_FP as int)
}

/// Euclidean reduction of an angle into one turn.
pub fn wrap_tau_exec(x: i64) -> (r: i64)
    ensures
        r == wrap_tau(x as int),
        0 <= r < TAU_FP,
{
    proof {
        lemma_mod_division_less_than_divisor(x as int, TAU_FP as int);
    }
    match x.checked_rem_euclid(TAU_FP) {
        Some(r) => r,
        None => 0,  // unreachable: the divisor is a positive constant
    }
}

/// Bhaskara's rational sine approximation on a half period,
/// `16 r (PI - r) / (5 PI^2 - 4 r (PI - r))` in micro-units,
/// for `r` in `[0, PI_FP]`.
pub open spec fn sin_half(r: int) -> int
    recommends
        0 <= r <= PI_FP,
{
    let g = r * (PI_FP - r);
    tdiv(16 * g * SCALE, 5 * (PI_FP * PI_FP) - 4 * g)
}

/// The numerator of Bhaskara's formula never exceeds `SCALE` times its
/// denominator, so the approximation stays within `[0, SCALE]`.
proof fn lemma_sin_half_bounds(r: int)
    requires
        0 <= r <= PI_FP,
    ensures
        0 <= r * (PI_FP - r),
        4 * (r * (PI_FP - r)) <= PI_FP * PI_FP,
        0 <= sin_half(r) <= SCALE,
{
    let g = r * (PI_FP - r);
    assert(0 <= g && 4 * g <= PI_FP * PI_FP) by (nonlinear_arith)
        requires
            0 <= r <= PI_FP,
            g == r * (PI_FP - r),
    ;
    let num = 16 * g * SCALE;
    let den = 5 * (PI_FP * PI_FP) - 4 * g;
    assert(num <= SCALE * den) by (nonlinear_arith)
        requires
            num == 16 * g * SCALE,
            den == 5 * (PI_FP * PI_FP) - 4 * g,
            0 <= g && 4 * g <= PI_FP * PI_FP,
    ;
    lemma_div_pos_is_pos(num, den);
    lemma_tdiv_le(num, den, SCALE as int);
}

/// Sine of an unreduced micro-radian angle: reduce into one turn, apply
/// Bhaskara's formula on the first half period, mirror it on the second.
pub open spec fn sin_fp(x: int) -> int {
    let r = wrap_tau(x);
    if r < PI_FP {
        sin_half(r)
    } else {
        -sin_half(r - PI_FP)
    }
}

/// Cosine, as sine shifted a quarter turn.
pub open spec fn cos_fp(x: int) -> int {
    sin_fp(x + HALF_PI_FP)
}

/// Both circular functions are exactly periodic in `TAU_FP`.
pub proof fn lemma_sin_cos_periodic(x: int)
    ensures
        sin_fp(x + TAU_FP) == sin_fp(x),
        cos_fp(x + TAU_FP) == cos_fp(x),
{
    lemma_mod_add_multiples_vanish(x, TAU_FP as int);
    assert(wrap_tau(x + TAU_FP) == wrap_tau(x));
    lemma_mod_add_multiples_vanish(x + HALF_PI_FP, TAU_FP as int);
}

/// Sine and cosine stay within `[-SCALE, SCALE]`.
pub proof fn lemma_sin_cos_bounded(x: int)
    ensures
        -SCALE <= sin_fp(x) <= SCALE,
        -SCALE <= cos_fp(x) <= SCALE,
{
    lemma_mod_division_less_than_divisor(x, TAU_FP as int);
    let r = wrap_tau(x);
    if r < PI_FP {
        lemma_sin_half_bounds(r);
    } else {
        lemma_sin_half_bounds(r - PI_FP);
    }
    lemma_mod_division_less_than_divisor(x + HALF_PI_FP, TAU_FP as int);
    let r2 = wrap_tau(x + HALF_PI_FP);
    if r2 < PI_FP {
        lemma_sin_half_bounds(r2);
    } else {
        lemma_sin_half_bounds(r2 - PI_FP);
    }
}

/// Bhaskara's formula on a reduced angle.
fn sin_half_exec(r: i64) -> (s: i64)
    requires
        0 <= r <= PI_FP,
    ensures
        s == sin_half(r as int),
        0 <= s <= SCALE,
{
    proof {
        lemma_sin_half_bounds(r as int);
        lemma_mul_abs_bound(r as int, (PI_FP - r) as int, PI_FP as int, PI_FP as int);
    }
    let ri = r as i128;
    let pi = PI_FP as i128;
    let g: i128 = ri * (pi - ri);
    let num: i128 = 16 * g * (SCALE as i128);
    let den: i128 = 5 * (pi * pi) - 4 * g;
    let q = i128_tdiv(num, den);
    q as i64
}

/// Sine of a bounded micro-radian angle.
pub fn sin_fp_exec(x: i64) -> (s: i64)
    requires
        bounded(x as int),
    ensures
        s == sin_fp(x as int),
        -SCALE <= s <= SCALE,
{
    let r = wrap_tau_exec(x);
    if r < PI_FP {
        sin_half_exec(r)
    } else {
        let s = sin_half_exec(r - PI_FP);
        -s
    }
}

/// Cosine of a bounded micro-radian angle.
pub fn cos_fp_exec(x: i64) -> (c: i64)
    requires
        bounded(x as int),
    ensures
        c == cos_fp(x as int),
        -SCALE <= c <= SCALE,
{
    let r = wrap_tau_exec(x + HALF_PI_FP);
    proof {
        assert(wrap_tau((x + HALF_PI_FP) as int) == wrap_tau(x as int + HALF_PI_FP));
    }
    if r < PI_FP {
        sin_half_exec(r)
    } else {
        let s = sin_half_exec(r - PI_FP);
        -s
    }
}

/// Polynomial arctangent on `[0, SCALE]` (the ratio is at most one):
/// `(pi/4) t + t (1 - t) (0.2447 + 0.0663 t)` in real units, clamped into
/// `[0, HALF_PI_FP]`.
pub open spec fn atan_core(t: int) -> int
    recommends
        0 <= t <= SCALE,
{
    let lin = tdiv(QUARTER_PI_FP * t, SCALE as int);
    let c = ATAN_C1 + tdiv(ATAN_C2 * t, SCALE as int);
    let m = t * (SCALE - t);
    let cor = tdiv(m * c, SCALE * SCALE);
    clamp(lin + cor, 0, HALF_PI_FP as int)
}

/// Arctangent of a non-negative ratio, via the reciprocal identity above
/// one.
pub open spec fn atan_pos(t: int) -> int
    recommends
        0 <= t,
{
    if t <= SCALE {
        atan_core(t)
    } else {
        HALF_PI_FP - atan_core(tdiv(SCALE * SCALE, t))
    }
}

/// Arctangent of any bounded ratio, odd in its argument and valued in
/// `[-HALF_PI_FP, HALF_PI_FP]`.
pub open spec fn atan_fp(t: int) -> int {
    if t >= 0 {
        atan_pos(t)
    } else {
        -atan_pos(-t)
    }
}

fn atan_core_exec(t: i64) -> (r: i64)
    requires
        0 <= t <= SCALE,
    ensures
        r == atan_core(t as int),
        0 <= r <= HALF_PI_FP,
{
    let ti = t as i128;
    let si = SCALE as i128;
    proof {
        lemma_mul_abs_bound(QUARTER_PI_FP as int, t as int, QUARTER_PI_FP as int, SCALE as int);
        lemma_mul_abs_bound(ATAN_C2 as int, t as int, ATAN_C2 as int, SCALE as int);
        lemma_tdiv_le(ATAN_C2 as int * t as int, SCALE as int, ATAN_C2 as int);
        lemma_div_pos_is_pos(ATAN_C2 as int * t as int, SCALE as int);
        lemma_mul_abs_bound(t as int, (SCALE - t) as int, SCALE as int, SCALE as int);
    }
    let lin = i128_tdiv((QUARTER_PI_FP as i128) * ti, si);
    let c = (ATAN_C1 as i128) + i128_tdiv((ATAN_C2 as i128) * ti, si);
    let m: i128 = ti * (si - ti);
    proof {
        lemma_mul_abs_bound(m as int, c as int, SCALE as int * SCALE as int, (ATAN_C1
            + ATAN_C2) as int);
    }
    let cor = i128_tdiv(m * c, si * si);
    clamp_i128(lin + cor, 0, HALF_PI_FP)
}

fn atan_pos_exec(t: i64) -> (r: i64)
    requires
        0 <= t,
    ensures
        r == atan_pos(t as int),
        0 <= r <= HALF_PI_FP,
{
    if t <= SCALE {
        atan_core_exec(t)
    } else {
        let inv = i128_tdiv((SCALE as i128) * (SCALE as i128), t as i128);
        proof {
            lemma_div_pos_is_pos((SCALE * SCALE) as int, t as int);
            lemma_div_is_ordered_by_denominator((SCALE * SCALE) as int, SCALE as int, t as int);
            lemma_div_by_multiple(SCALE as int, SCALE as int);
        }
        HALF_PI_FP - atan_core_exec(inv as i64)
    }
}

/// Arctangent of a bounded fixed-point ratio.
pub fn atan_fp_exec(t: i64) -> (r: i64)
    requires
        bounded(t as int),
    ensures
        r == atan_fp(t as int),
        -HALF_PI_FP <= r <= HALF_PI_FP,
{
    if t >= 0 {
        atan_pos_exec(t)
    } else {
        let r = atan_pos_exec(-t);
        -r
    }
}

/// Square-root-weighted arccosine polynomial,
/// `a0 - a1 u + a2 u^2 - a3 u^3` in micro-units, for `u` in `[0, SCALE]`.
pub open spec fn acos_poly(u: int) -> int
    recommends
        0 <= u <= SCALE,
{
    let u2 = u * u;
    let u3 = u2 * u;
    ACOS_A0 - tdiv(ACOS_A1 * u, SCALE as int) + tdiv(ACOS_A2 * u2, SCALE * SCALE) - tdiv(
        ACOS_A3 * u3,
        SCALE * (SCALE * SCALE),
    )
}

/// Arccosine on `[0, SCALE]`: `sqrt(1 - u) * poly(u)`, clamped into
/// `[0, HALF_PI_FP]`; exactly zero at `u == SCALE`.
pub open spec fn acos_core(u: int) -> int
    recommends
        0 <= u <= SCALE,
{
    clamp(tdiv(sqrt_floor((SCALE - u) * SCALE) * acos_poly(u), SCALE as int), 0, HALF_PI_FP as int)
}

/// Arccosine of any ratio in `[-SCALE, SCALE]`, mirrored below zero and
/// valued in `[0, PI_FP]`; exactly `PI_FP` at `-SCALE` and zero at `SCALE`.
pub open spec fn acos_fp(u: int) -> int
    recommends
        -SCALE <= u <= SCALE,
{
    if u >= 0 {
        acos_core(u)
    } else {
        PI_FP - acos_core(-u)
    }
}

/// At the lower domain endpoint the arccosine is exactly a half turn of
/// longitude: `acos_fp(-SCALE) == PI_FP`.
pub proof fn lemma_acos_at_minus_one()
    ensures
        acos_fp(-SCALE as int) == PI_FP,
{
    lemma_sqrt_floor_of(0, 0);
    assert(acos_core(SCALE as int) == 0);
}

fn acos_core_exec(u: i64) -> (r: i64)
    requires
        0 <= u <= SCALE,
    ensures
        r == acos_core(u as int),
        0 <= r <= HALF_PI_FP,
{
    let ui = u as i128;
    let si = SCALE as i128;
    let root = isqrt(((SCALE - u) as u128) * (SCALE as u128));
    proof {
        let v = (SCALE - u) as int * SCALE as int;
        assert(root as int <= 2_000_000) by (nonlinear_arith)
            requires
                (root as int) * (root as int) <= v,
                v <= 2_000_000 * 2_000_000,
                0 <= root as int,
        ;
    }
    proof {
        lemma_mul_abs_bound(u as int, u as int, SCALE as int, SCALE as int);
        lemma_mul_abs_bound(ACOS_A1 as int, u as int, ACOS_A1 as int, SCALE as int);
    }
    let u2: i128 = ui * ui;
    proof {
        lemma_mul_abs_bound(u2 as int, u as int, SCALE as int * SCALE as int, SCALE as int);
        lemma_mul_abs_bound(ACOS_A2 as int, u2 as int, ACOS_A2 as int, SCALE as int
            * SCALE as int);
    }
    let u3: i128 = u2 * ui;
    proof {
        lemma_mul_abs_bound(ACOS_A3 as int, u3 as int, ACOS_A3 as int, SCALE as int * (SCALE as int
            * SCALE as int));
    }
    let p1 = i128_tdiv((ACOS_A1 as i128) * ui, si);
    let p2 = i128_tdiv((ACOS_A2 as i128) * u2, si * si);
    let p3 = i128_tdiv((ACOS_A3 as i128) * u3, si * (si * si));
    proof {
        lemma_tdiv_le(ACOS_A1 as int * u as int, SCALE as int, ACOS_A1 as int);
        lemma_div_pos_is_pos(ACOS_A1 as int * u as int, SCALE as int);
        lemma_tdiv_le(ACOS_A2 as int * u2 as int, SCALE as int * SCALE as int, ACOS_A2 as int);
        lemma_div_pos_is_pos(ACOS_A2 as int * u2 as int, SCALE as int * SCALE as int);
        lemma_tdiv_le(
            ACOS_A3 as int * u3 as int,
            SCALE as int * (SCALE as int * SCALE as int),
            ACOS_A3 as int,
        );
        lemma_div_pos_is_pos(ACOS_A3 as int * u3 as int, SCALE as int * (SCALE as int
            * SCALE as int));
    }
    let poly: i128 = (ACOS_A0 as i128) - p1 + p2 - p3;
    proof {
        lemma_mul_abs_bound(root as int, poly as int, 2_000_000, 2_000_000);
    }
    let q = i128_tdiv((root as i128) * poly, si);
    clamp_i128(q, 0, HALF_PI_FP)
}

/// Arccosine of a fixed-point ratio in `[-SCALE, SCALE]`.
pub fn acos_fp_exec(u: i64) -> (r: i64)
    requires
        -SCALE <= u <= SCALE,
    ensures
        r == acos_fp(u as int),
        0 <= r <= PI_FP,
{
    if u >= 0 {
        acos_core_exec(u)
    } else {
        let r = acos_core_exec(-u);
        PI_FP - r
    }
}

} // verus!
