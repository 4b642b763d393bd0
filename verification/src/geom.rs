//! Points, rotation matrices and distances in fixed-point micro-units.

use crate::fixed::{
    bounded, fp_add, fp_mul, fp_sub, isqrt, lemma_mul_abs_bound, lemma_smul_one,
    lemma_square_nonneg, sadd, smul, sqrt_floor, ssub, FP_MAX, SCALE,
};
use crate::trig::{cos_fp, cos_fp_exec, lemma_sin_cos_bounded, lemma_sin_cos_periodic, sin_fp, sin_fp_exec, TAU_FP};
use vstd::prelude::*;

verus! {

/// A 3D point or vector, each coordinate a fixed-point micro-unit value.
#[derive(Clone, Copy, PartialEq, Eq, Structural, Debug)]
pub struct Point3 {
    pub x: i64,
    pub y: i64,
    pub z: i64,
}

/// Every coordinate within the saturation bound.
pub open spec fn point_bounded(p: Point3) -> bool {
    bounded(p.x as int) && bounded(p.y as int) && bounded(p.z as int)
}

/// A 3x3 matrix of fixed-point entries, row major.
#[derive(Clone, Copy, PartialEq, Eq, Structural, Debug)]
pub struct Mat3 {
    pub m00: i64,
    pub m01: i64,
    pub m02: i64,
    pub m10: i64,
    pub m11: i64,
    pub m12: i64,
    pub m20: i64,
    pub m21: i64,
    pub m22: i64,
}

/// Every entry within the saturation bound.
pub open spec fn mat_bounded(m: Mat3) -> bool {
    &&& bounded(m.m00 as int)
    &&& bounded(m.m01 as int)
    &&& bounded(m.m02 as int)
    &&& bounded(m.m10 as int)
    &&& bounded(m.m11 as int)
    &&& bounded(m.m12 as int)
    &&& bounded(m.m20 as int)
    &&& bounded(m.m21 as int)
    &&& bounded(m.m22 as int)
}

/// The identity rotation.
pub open spec fn mat_identity() -> Mat3 {
    Mat3 { m00: SCALE, m01: 0, m02: 0, m10: 0, m11: SCALE, m12: 0, m20: 0, m21: 0, m22: SCALE }
}

/// Component-wise saturating difference, `a - b`.
pub open spec fn point_sub_spec(a: Point3, b: Point3) -> (int, int, int) {
    (ssub(a.x as int, b.x as int), ssub(a.y as int, b.y as int), ssub(a.z as int, b.z as int))
}

pub fn point_sub(a: Point3, b: Point3) -> (r: Point3)
    requires
        point_bounded(a),
        point_bounded(b),
    ensures
        r.x == point_sub_spec(a, b).0,
        r.y == point_sub_spec(a, b).1,
        r.z == point_sub_spec(a, b).2,
        point_bounded(r),
{
    Point3 { x: fp_sub(a.x, b.x), y: fp_sub(a.y, b.y), z: fp_sub(a.z, b.z) }
}

/// A saturating three-term dot product, folded left as the executable code
/// computes it.
pub open spec fn dot3(a0: int, a1: int, a2: int, b0: int, b1: int, b2: int) -> int {
    sadd(sadd(smul(a0, b0), smul(a1, b1)), smul(a2, b2))
}

/// The rotated image of `v`: each component a saturating dot product of a
/// matrix row with `v`.
pub open spec fn mat_apply_spec(m: Mat3, v: Point3) -> (int, int, int) {
    (
        dot3(m.m00 as int, m.m01 as int, m.m02 as int, v.x as int, v.y as int, v.z as int),
        dot3(m.m10 as int, m.m11 as int, m.m12 as int, v.x as int, v.y as int, v.z as int),
        dot3(m.m20 as int, m.m21 as int, m.m22 as int, v.x as int, v.y as int, v.z as int),
    )
}

pub fn mat_apply(m: &Mat3, v: Point3) -> (r: Point3)
    requires
        mat_bounded(*m),
        point_bounded(v),
    ensures
        r.x == mat_apply_spec(*m, v).0,
        r.y == mat_apply_spec(*m, v).1,
        r.z == mat_apply_spec(*m, v).2,
        point_bounded(r),
{
    Point3 {
        x: fp_add(fp_add(fp_mul(m.m00, v.x), fp_mul(m.m01, v.y)), fp_mul(m.m02, v.z)),
        y: fp_add(fp_add(fp_mul(m.m10, v.x), fp_mul(m.m11, v.y)), fp_mul(m.m12, v.z)),
        z: fp_add(fp_add(fp_mul(m.m20, v.x), fp_mul(m.m21, v.y)), fp_mul(m.m22, v.z)),
    }
}

/// The saturating matrix product `a * b`, entry by entry.
pub open spec fn mat_mul_spec(a: Mat3, b: Mat3) -> Mat3 {
    Mat3 {
        m00: dot3(a.m00 as int, a.m01 as int, a.m02 as int, b.m00 as int, b.m10 as int, b.m20 as int) as i64,
        m01: dot3(a.m00 as int, a.m01 as int, a.m02 as int, b.m01 as int, b.m11 as int, b.m21 as int) as i64,
        m02: dot3(a.m00 as int, a.m01 as int, a.m02 as int, b.m02 as int, b.m12 as int, b.m22 as int) as i64,
        m10: dot3(a.m10 as int, a.m11 as int, a.m12 as int, b.m00 as int, b.m10 as int, b.m20 as int) as i64,
        m11: dot3(a.m10 as int, a.m11 as int, a.m12 as int, b.m01 as int, b.m11 as int, b.m21 as int) as i64,
        m12: dot3(a.m10 as int, a.m11 as int, a.m12 as int, b.m02 as int, b.m12 as int, b.m22 as int) as i64,
        m20: dot3(a.m20 as int, a.m21 as int, a.m22 as int, b.m00 as int, b.m10 as int, b.m20 as int) as i64,
        m21: dot3(a.m20 as int, a.m21 as int, a.m22 as int, b.m01 as int, b.m11 as int, b.m21 as int) as i64,
        m22: dot3(a.m20 as int, a.m21 as int, a.m22 as int, b.m02 as int, b.m12 as int, b.m22 as int) as i64,
    }
}

pub fn mat_mul(a: &Mat3, b: &Mat3) -> (r: Mat3)
    requires
        mat_bounded(*a),
        mat_bounded(*b),
    ensures
        r == mat_mul_spec(*a, *b),
        mat_bounded(r),
{
    Mat3 {
        m00: fp_add(fp_add(fp_mul(a.m00, b.m00), fp_mul(a.m01, b.m10)), fp_mul(a.m02, b.m20)),
        m01: fp_add(fp_add(fp_mul(a.m00, b.m01), fp_mul(a.m01, b.m11)), fp_mul(a.m02, b.m21)),
        m02: fp_add(fp_add(fp_mul(a.m00, b.m02), fp_mul(a.m01, b.m12)), fp_mul(a.m02, b.m22)),
        m10: fp_add(fp_add(fp_mul(a.m10, b.m00), fp_mul(a.m11, b.m10)), fp_mul(a.m12, b.m20)),
        m11: fp_add(fp_add(fp_mul(a.m10, b.m01), fp_mul(a.m11, b.m11)), fp_mul(a.m12, b.m21)),
        m12: fp_add(fp_add(fp_mul(a.m10, b.m02), fp_mul(a.m11, b.m12)), fp_mul(a.m12, b.m22)),
        m20: fp_add(fp_add(fp_mul(a.m20, b.m00), fp_mul(a.m21, b.m10)), fp_mul(a.m22, b.m20)),
        m21: fp_add(fp_add(fp_mul(a.m20, b.m01), fp_mul(a.m21, b.m11)), fp_mul(a.m22, b.m21)),
        m22: fp_add(fp_add(fp_mul(a.m20, b.m02), fp_mul(a.m21, b.m12)), fp_mul(a.m22, b.m22)),
    }
}

/// The elementary rotation about the X axis by a micro-radian angle.
pub open spec fn rot_x_spec(a: int) -> Mat3 {
    Mat3 {
        m00: SCALE,
        m01: 0,
        m02: 0,
        m10: 0,
        m11: cos_fp(a) as i64,
        m12: (-sin_fp(a)) as i64,
        m20: 0,
        m21: sin_fp(a) as i64,
        m22: cos_fp(a) as i64,
    }
}

/// The elementary rotation about the Y axis.
pub open spec fn rot_y_spec(a: int) -> Mat3 {
    Mat3 {
        m00: cos_fp(a) as i64,
        m01: 0,
        m02: sin_fp(a) as i64,
        m10: 0,
        m11: SCALE,
        m12: 0,
        m20: (-sin_fp(a)) as i64,
        m21: 0,
        m22: cos_fp(a) as i64,
    }
}

/// The elementary rotation about the Z axis.
pub open spec fn rot_z_spec(a: int) -> Mat3 {
    Mat3 {
        m00: cos_fp(a) as i64,
        m01: (-sin_fp(a)) as i64,
        m02: 0,
        m10: sin_fp(a) as i64,
        m11: cos_fp(a) as i64,
        m12: 0,
        m20: 0,
        m21: 0,
        m22: SCALE,
    }
}

pub fn rot_x(a: i64) -> (r: Mat3)
    requires
        bounded(a as int),
    ensures
        r == rot_x_spec(a as int),
        mat_bounded(r),
{
    proof {
        lemma_sin_cos_bounded(a as int);
    }
    let s = sin_fp_exec(a);
    let c = cos_fp_exec(a);
    Mat3 { m00: SCALE, m01: 0, m02: 0, m10: 0, m11: c, m12: -s, m20: 0, m21: s, m22: c }
}

pub fn rot_y(a: i64) -> (r: Mat3)
    requires
        bounded(a as int),
    ensures
        r == rot_y_spec(a as int),
        mat_bounded(r),
{
    proof {
        lemma_sin_cos_bounded(a as int);
    }
    let s = sin_fp_exec(a);
    let c = cos_fp_exec(a);
    Mat3 { m00: c, m01: 0, m02: s, m10: 0, m11: SCALE, m12: 0, m20: -s, m21: 0, m22: c }
}

pub fn rot_z(a: i64) -> (r: Mat3)
    requires
        bounded(a as int),
    ensures
        r == rot_z_spec(a as int),
        mat_bounded(r),
{
    proof {
        lemma_sin_cos_bounded(a as int);
    }
    let s = sin_fp_exec(a);
    let c = cos_fp_exec(a);
    Mat3 { m00: c, m01: -s, m02: 0, m10: s, m11: c, m12: 0, m20: 0, m21: 0, m22: SCALE }
}

/// The frame rotation built from three per-axis micro-radian angles:
/// elementary rotations about Z, then Y, then X, composed in that order.
pub open spec fn rotation_from_angles(ax: int, ay: int, az: int) -> Mat3 {
    mat_mul_spec(rot_x_spec(ax), mat_mul_spec(rot_y_spec(ay), rot_z_spec(az)))
}

pub fn rotation_matrix(ax: i64, ay: i64, az: i64) -> (r: Mat3)
    requires
        bounded(ax as int),
        bounded(ay as int),
        bounded(az as int),
    ensures
        r == rotation_from_angles(ax as int, ay as int, az as int),
        mat_bounded(r),
{
    let rx = rot_x(ax);
    let ry = rot_y(ay);
    let rz = rot_z(az);
    let yz = mat_mul(&ry, &rz);
    mat_mul(&rx, &yz)
}

/// Advancing the X-axis angle by one full turn returns the same frame
/// rotation, the other two angles held fixed: the elementary rotations are
/// built from circular functions that are exactly periodic in `TAU_FP`,
/// and the composition order (Z, then Y, then X) preserves that period.
pub proof fn lemma_rotation_periodic(ax: int, ay: int, az: int)
    ensures
        rotation_from_angles(ax + TAU_FP, ay, az) == rotation_from_angles(ax, ay, az),
{
    lemma_sin_cos_periodic(ax);
    assert(rot_x_spec(ax + TAU_FP) == rot_x_spec(ax));
}

/// The same period seen from the scene angle, for a unit X-axis rate (the
/// rate every shipped model uses): the rotation computed from
/// `theta + TAU_FP` equals the rotation computed from `theta`, the other
/// two angles held fixed, because scaling by one is exact.
pub proof fn lemma_rotation_x_period_in_theta(theta: int, ay: int, az: int)
    requires
        bounded(theta),
        bounded(theta + TAU_FP),
    ensures
        rotation_from_angles(smul(theta + TAU_FP, SCALE as int), ay, az) == rotation_from_angles(
            smul(theta, SCALE as int),
            ay,
            az,
        ),
{
    lemma_smul_one(theta);
    lemma_smul_one(theta + TAU_FP);
    lemma_rotation_periodic(theta, ay, az);
}

/// The squared planar distance between `(ax, ay)` and `(bx, by)`.
pub open spec fn dist2_sq(ax: int, ay: int, bx: int, by: int) -> int {
    (ax - bx) * (ax - bx) + (ay - by) * (ay - by)
}

/// The squared spatial distance between two points.
pub open spec fn dist3_sq(a: Point3, b: Point3) -> int {
    dist2_sq(a.x as int, a.y as int, b.x as int, b.y as int) + (a.z - b.z) * (a.z - b.z)
}

/// Planar Euclidean distance, rounded down to whole micro-units.
pub fn dist2(ax: i64, ay: i64, bx: i64, by: i64) -> (r: i64)
    requires
        bounded(ax as int),
        bounded(ay as int),
        bounded(bx as int),
        bounded(by as int),
    ensures
        r == sqrt_floor(dist2_sq(ax as int, ay as int, bx as int, by as int)),
        r * r <= dist2_sq(ax as int, ay as int, bx as int, by as int),
        dist2_sq(ax as int, ay as int, bx as int, by as int) < (r + 1) * (r + 1),
        0 <= r <= 3 * FP_MAX,
{
    let dx: i128 = ax as i128 - bx as i128;
    let dy: i128 = ay as i128 - by as i128;
    proof {
        lemma_mul_abs_bound(dx as int, dx as int, 2 * FP_MAX as int, 2 * FP_MAX as int);
        lemma_mul_abs_bound(dy as int, dy as int, 2 * FP_MAX as int, 2 * FP_MAX as int);
        lemma_square_nonneg(dx as int);
        lemma_square_nonneg(dy as int);
    }
    let sq: i128 = dx * dx + dy * dy;
    let root = isqrt(sq as u128);
    proof {
        assert(root as int <= 3 * FP_MAX) by (nonlinear_arith)
            requires
                (root as int) * (root as int) <= sq as int,
                sq as int <= 8 * ((FP_MAX as int) * (FP_MAX as int)),
                0 <= root as int,
    ;
    }
    root as i64
}

/// Spatial Euclidean distance, rounded down to whole micro-units.
pub fn dist3(a: Point3, b: Point3) -> (r: i64)
    requires
        point_bounded(a),
        point_bounded(b),
    ensures
        r == sqrt_floor(dist3_sq(a, b)),
        r * r <= dist3_sq(a, b),
        dist3_sq(a, b) < (r + 1) * (r + 1),
        0 <= r <= 4 * FP_MAX,
{
    let dx: i128 = a.x as i128 - b.x as i128;
    let dy: i128 = a.y as i128 - b.y as i128;
    let dz: i128 = a.z as i128 - b.z as i128;
    proof {
        lemma_mul_abs_bound(dx as int, dx as int, 2 * FP_MAX as int, 2 * FP_MAX as int);
        lemma_mul_abs_bound(dy as int, dy as int, 2 * FP_MAX as int, 2 * FP_MAX as int);
        lemma_mul_abs_bound(dz as int, dz as int, 2 * FP_MAX as int, 2 * FP_MAX as int);
        lemma_square_nonneg(dx as int);
        lemma_square_nonneg(dy as int);
        lemma_square_nonneg(dz as int);
    }
    let sq: i128 = dx * dx + dy * dy + dz * dz;
    let root = isqrt(sq as u128);
    proof {
        assert(root as int <= 4 * FP_MAX) by (nonlinear_arith)
            requires
                (root as int) * (root as int) <= sq as int,
                sq as int <= 12 * ((FP_MAX as int) * (FP_MAX as int)),
                0 <= root as int,
    ;
    }
    root as i64
}

} // verus!
