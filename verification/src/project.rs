//! The projector: a stateless map from a rotated, centered 3D point and a
//! camera position to an equirectangular angular coordinate and a depth.
//!
//! Longitude is `acos((p.x - cam.x) / dist_xy)` carrying the sign of
//! `p.y - cam.y` (non-negative counts as positive, as the float build's
//! `signum` treats zero); latitude is `atan((p.z - cam.z) / dist_xy)`;
//! depth is the spatial camera distance.  A point directly on the camera's
//! vertical axis has `dist_xy == 0` and no defined angles: it is marked
//! invalid instead of dividing by zero, and the renderer suppresses it.

use crate::fixed::{fp_div, sdiv, sqrt_floor, tdiv, FP_MAX, SCALE};
use crate::geom::{dist2, dist2_sq, dist3, dist3_sq, point_bounded, Point3};
use crate::trig::{
    acos_fp, acos_fp_exec, atan_fp, atan_fp_exec, lemma_acos_at_minus_one, HALF_PI_FP, PI_FP,
};
use vstd::arithmetic::div_mod::lemma_div_by_multiple;
use vstd::arithmetic::mul::lemma_mul_inequality;
use vstd::prelude::*;

verus! {

/// One projected trail point: an angular coordinate in micro-radians and a
/// camera distance in micro-units.  `valid` is false when the point lies on
/// the camera's vertical axis and the angles are undefined.
#[derive(Clone, Copy, PartialEq, Eq, Structural, Debug)]
pub struct Projected {
    pub valid: bool,
    pub lon: i64,
    pub lat: i64,
    pub depth: i64,
}

/// The ranges the projector guarantees: longitude within half a turn
/// either way, latitude within a quarter turn, depth non-negative.
pub open spec fn projected_wf(q: Projected) -> bool {
    &&& -PI_FP <= q.lon <= PI_FP
    &&& -HALF_PI_FP <= q.lat <= HALF_PI_FP
    &&& 0 <= q.depth <= 4 * FP_MAX
}

/// The projection as a function of camera and point.
pub open spec fn project_spec(camera: Point3, p: Point3) -> Projected {
    let dx = p.x - camera.x;
    let dy = p.y - camera.y;
    let dz = p.z - camera.z;
    let dist_xy = sqrt_floor(dist2_sq(p.x as int, p.y as int, camera.x as int, camera.y as int));
    let depth = sqrt_floor(dist3_sq(p, camera));
    if dist_xy == 0 {
        Projected { valid: false, lon: 0, lat: 0, depth: depth as i64 }
    } else {
        let u = sdiv(dx, dist_xy);
        let a = acos_fp(u);
        let lon = if dy >= 0 {
            a
        } else {
            -a
        };
        let lat = atan_fp(sdiv(dz, dist_xy));
        Projected { valid: true, lon: lon as i64, lat: lat as i64, depth: depth as i64 }
    }
}

/// A planar difference never exceeds the planar distance it contributes
/// to, so the longitude ratio stays within `[-SCALE, SCALE]`.
proof fn lemma_ratio_in_range(d: int, dist: int, sq: int)
    requires
        d * d <= sq,
        dist * dist <= sq,
        sq < (dist + 1) * (dist + 1),
        0 < dist,
    ensures
        -dist <= d <= dist,
        -(SCALE as int) <= tdiv(d * SCALE, dist) <= SCALE,
{
    assert(-dist <= d <= dist) by (nonlinear_arith)
        requires
            d * d <= sq,
            sq < (dist + 1) * (dist + 1),
            0 < dist,
    ;
    lemma_mul_inequality(d, dist, SCALE as int);
    lemma_mul_inequality(-d, dist, SCALE as int);
    if d >= 0 {
        crate::fixed::lemma_tdiv_le(d * SCALE, dist, SCALE as int);
        crate::fixed::lemma_tdiv_bound(d * SCALE, dist);
    } else {
        crate::fixed::lemma_tdiv_le((-d) * SCALE, dist, SCALE as int);
        crate::fixed::lemma_tdiv_bound((-d) * SCALE, dist);
        assert((-d) * SCALE == -(d * SCALE)) by (nonlinear_arith);
    }
}

/// Project one point.  Returns exactly the spec-level projection; an
/// invalid result only on the degenerate vertical axis.
pub fn project(camera: Point3, p: Point3) -> (q: Projected)
    requires
        point_bounded(camera),
        point_bounded(p),
    ensures
        q == project_spec(camera, p),
        projected_wf(q),
        q.valid <==> sqrt_floor(
            dist2_sq(p.x as int, p.y as int, camera.x as int, camera.y as int),
        ) != 0,
{
    let depth = dist3(p, camera);
    let dist_xy = dist2(p.x, p.y, camera.x, camera.y);
    if dist_xy == 0 {
        Projected { valid: false, lon: 0, lat: 0, depth }
    } else {
        let dx = p.x - camera.x;
        let dy = p.y - camera.y;
        let dz = p.z - camera.z;
        proof {
            crate::fixed::lemma_square_nonneg(dx as int);
            crate::fixed::lemma_square_nonneg(dy as int);
            crate::fixed::lemma_square_nonneg(dz as int);
            let sq = dist2_sq(p.x as int, p.y as int, camera.x as int, camera.y as int);
            lemma_ratio_in_range(dx as int, dist_xy as int, sq);
        }
        let u = fp_div(dx, dist_xy);
        let a = acos_fp_exec(u);
        let lon = if dy >= 0 {
            a
        } else {
            -a
        };
        let t = fp_div(dz, dist_xy);
        let lat = atan_fp_exec(t);
        Projected { valid: true, lon, lat, depth }
    }
}

/// A point on the camera's forward axis (same planar `y`, smaller `x`)
/// projects to longitude `PI_FP` exactly, with a defined (valid) result:
/// the longitude ratio is exactly minus one and the sign term of a zero
/// `y` difference is positive.
pub proof fn lemma_forward_axis_longitude(camera: Point3, p: Point3)
    requires
        point_bounded(camera),
        point_bounded(p),
        p.y == camera.y,
        p.x < camera.x,
    ensures
        project_spec(camera, p).valid,
        project_spec(camera, p).lon == PI_FP,
{
    let dx = p.x - camera.x;
    let d = -dx;
    assert(dist2_sq(p.x as int, p.y as int, camera.x as int, camera.y as int) == dx * dx);
    assert(d * d == dx * dx && dx * dx < (d + 1) * (d + 1)) by (nonlinear_arith)
        requires
            d == -dx,
            dx < 0,
    ;
    crate::fixed::lemma_sqrt_floor_of(dx * dx, d);
    assert(tdiv(dx * SCALE, d) == -SCALE) by {
        assert(dx * SCALE == -(SCALE * d) && dx * SCALE < 0) by (nonlinear_arith)
            requires
                d == -dx,
                dx < 0,
        ;
        lemma_div_by_multiple(SCALE as int, d);
    }
    assert(sdiv(dx, d) == -SCALE);
    lemma_acos_at_minus_one();
}

} // verus!
