//! The attractor models: per-variant vector fields, forward Euler steps,
//! and the immutable configuration bundle each scene is built from.

use crate::fixed::{bounded, fp_add, fp_mul, fp_neg, fp_sub, sadd, smul, sneg, ssub};
use crate::geom::{point_bounded, Point3};
use crate::trig::{sin_fp, sin_fp_exec};
use rand::Rng;
use vstd::prelude::*;

verus! {

/// Four times one, in micro-units: the fixed coupling coefficient of the
/// Halvorsen field.
pub const FOUR_FP: i64 = 4_000_000;

/// An RGBA color with 8-bit channels.
#[derive(Clone, Copy, PartialEq, Eq, Structural, Debug)]
pub struct Rgba {
    pub r: u8,
    pub g: u8,
    pub b: u8,
    pub a: u8,
}

/// Which chaotic system a model integrates, with its field-equation
/// parameters in micro-units.
#[derive(Clone, Copy, PartialEq, Eq, Structural, Debug)]
pub enum AttractorKind {
    Lorenz { sigma: i64, rho: i64, beta: i64 },
    Halvorsen { a: i64 },
    Thomas { b: i64 },
}

/// Immutable configuration for one attractor variant: integration step,
/// staging counts, viewpoint, rotation rates and trail styling.
#[derive(Clone, Copy, PartialEq, Eq, Structural, Debug)]
pub struct AttractorModel {
    pub kind: AttractorKind,
    /// Number of independent particles.
    pub orbit_count: usize,
    /// Fixed trail length per particle, at least one.
    pub orbit_len: usize,
    /// Warm-up integration steps applied at particle creation.
    pub draw_skip: usize,
    /// Integration step size in micro-units.
    pub delta_t: i64,
    /// Fixed viewpoint of the projector.
    pub camera: Point3,
    /// Look-at offset subtracted from every point before rotating.
    pub center: Point3,
    /// Per-axis multipliers applied to the scene angle.
    pub rot_x_rate: i64,
    pub rot_y_rate: i64,
    pub rot_z_rate: i64,
    /// Scene-angle increment per tick (any sign).
    pub delta_theta: i64,
    /// Base line-width budget and its half, in screen micro-radians.
    pub orbit_weight: i64,
    pub orbit_weight2: i64,
    /// Base trail color.
    pub color: Rgba,
    /// Corners of the box initial points are sampled from.
    pub sample_lo: Point3,
    pub sample_hi: Point3,
}

/// The parameters every field equation relies on are bounded.
pub open spec fn kind_bounded(k: AttractorKind) -> bool {
    match k {
        AttractorKind::Lorenz { sigma, rho, beta } => bounded(sigma as int) && bounded(rho as int)
            && bounded(beta as int),
        AttractorKind::Halvorsen { a } => bounded(a as int),
        AttractorKind::Thomas { b } => bounded(b as int),
    }
}

/// Well-formed configuration: positive counts, step and weight, bounded
/// geometry, and a non-empty sampling box.
pub open spec fn model_wf(m: AttractorModel) -> bool {
    &&& kind_bounded(m.kind)
    &&& m.orbit_count >= 1
    &&& m.orbit_len >= 1
    &&& m.delta_t > 0
    &&& bounded(m.delta_t as int)
    &&& point_bounded(m.camera)
    &&& point_bounded(m.center)
    &&& bounded(m.rot_x_rate as int)
    &&& bounded(m.rot_y_rate as int)
    &&& bounded(m.rot_z_rate as int)
    &&& bounded(m.delta_theta as int)
    &&& m.orbit_weight > 0
    &&& bounded(m.orbit_weight as int)
    &&& 0 <= m.orbit_weight2
    &&& bounded(m.orbit_weight2 as int)
    &&& point_bounded(m.sample_lo)
    &&& point_bounded(m.sample_hi)
    &&& m.sample_lo.x <= m.sample_hi.x
    &&& m.sample_lo.y <= m.sample_hi.y
    &&& m.sample_lo.z <= m.sample_hi.z
}

/// The vector field of a variant at `p`, one saturating fixed-point value
/// per axis.
pub open spec fn field_spec(k: AttractorKind, p: Point3) -> (int, int, int) {
    let x = p.x as int;
    let y = p.y as int;
    let z = p.z as int;
    match k {
        AttractorKind::Lorenz { sigma, rho, beta } => (
            smul(sigma as int, ssub(y, x)),
            ssub(smul(x, ssub(rho as int, z)), y),
            ssub(smul(x, y), smul(beta as int, z)),
        ),
        AttractorKind::Halvorsen { a } => (
            ssub(ssub(ssub(sneg(smul(a as int, x)), smul(FOUR_FP as int, y)), smul(FOUR_FP as int, z)), smul(y, y)),
            ssub(ssub(ssub(sneg(smul(a as int, y)), smul(FOUR_FP as int, x)), smul(FOUR_FP as int, z)), smul(z, z)),
            ssub(ssub(ssub(sneg(smul(a as int, z)), smul(FOUR_FP as int, x)), smul(FOUR_FP as int, y)), smul(x, x)),
        ),
        AttractorKind::Thomas { b } => (
            ssub(sin_fp(y), smul(b as int, x)),
            ssub(sin_fp(z), smul(b as int, y)),
            ssub(sin_fp(x), smul(b as int, z)),
        ),
    }
}

/// One forward Euler step: `p + field(p) * delta_t`, in saturating
/// fixed-point arithmetic.
pub open spec fn step_spec(m: AttractorModel, p: Point3) -> Point3 {
    let d = field_spec(m.kind, p);
    Point3 {
        x: sadd(p.x as int, smul(d.0, m.delta_t as int)) as i64,
        y: sadd(p.y as int, smul(d.1, m.delta_t as int)) as i64,
        z: sadd(p.z as int, smul(d.2, m.delta_t as int)) as i64,
    }
}

impl AttractorModel {
    /// Advance one point by one integration step of this model's field.
    /// The step is a pure function of the model and the point.
    pub fn step(&self, p: Point3) -> (r: Point3)
        requires
            model_wf(*self),
            point_bounded(p),
        ensures
            r == step_spec(*self, p),
            point_bounded(r),
    {
        let (dx, dy, dz): (i64, i64, i64) = match self.kind {
            AttractorKind::Lorenz { sigma, rho, beta } => {
                let fx = fp_mul(sigma, fp_sub(p.y, p.x));
                let fy = fp_sub(fp_mul(p.x, fp_sub(rho, p.z)), p.y);
                let fz = fp_sub(fp_mul(p.x, p.y), fp_mul(beta, p.z));
                (fx, fy, fz)
            },
            AttractorKind::Halvorsen { a } => {
                let fx = fp_sub(
                    fp_sub(fp_sub(fp_neg(fp_mul(a, p.x)), fp_mul(FOUR_FP, p.y)), fp_mul(FOUR_FP, p.z)),
                    fp_mul(p.y, p.y),
                );
                let fy = fp_sub(
                    fp_sub(fp_sub(fp_neg(fp_mul(a, p.y)), fp_mul(FOUR_FP, p.x)), fp_mul(FOUR_FP, p.z)),
                    fp_mul(p.z, p.z),
                );
                let fz = fp_sub(
                    fp_sub(fp_sub(fp_neg(fp_mul(a, p.z)), fp_mul(FOUR_FP, p.x)), fp_mul(FOUR_FP, p.y)),
                    fp_mul(p.x, p.x),
                );
                (fx, fy, fz)
            },
            AttractorKind::Thomas { b } => {
                let fx = fp_sub(sin_fp_exec(p.y), fp_mul(b, p.x));
                let fy = fp_sub(sin_fp_exec(p.z), fp_mul(b, p.y));
                let fz = fp_sub(sin_fp_exec(p.x), fp_mul(b, p.z));
                (fx, fy, fz)
            },
        };
        Point3 {
            x: fp_add(p.x, fp_mul(dx, self.delta_t)),
            y: fp_add(p.y, fp_mul(dy, self.delta_t)),
            z: fp_add(p.z, fp_mul(dz, self.delta_t)),
        }
    }
}

/// Integration is deterministic: two results of stepping the same model at
/// the same point are the same point.
pub proof fn lemma_step_deterministic(m: AttractorModel, p: Point3, r1: Point3, r2: Point3)
    requires
        r1 == step_spec(m, p),
        r2 == step_spec(m, p),
    ensures
        r1 == r2,
{
}

/// The Lorenz configuration: sigma 10, rho 28, beta 8/3, step 0.001.
pub open spec fn lorenz_model() -> AttractorModel {
    AttractorModel {
        kind: AttractorKind::Lorenz { sigma: 10_000_000, rho: 28_000_000, beta: 2_666_667 },
        orbit_count: 400,
        orbit_len: 600,
        draw_skip: 1200,
        delta_t: 1_000,
        camera: Point3 { x: -10_000_000i64, y: 0, z: 15_000_000 },
        center: Point3 { x: 0, y: 0, z: 15_000_000 },
        rot_x_rate: 1_000_000,
        rot_y_rate: 7_900_000,
        rot_z_rate: 1_300_000,
        delta_theta: 600,
        orbit_weight: 25_000,
        orbit_weight2: 12_500,
        color: Rgba { r: 255, g: 0, b: 0, a: 255 },
        sample_lo: Point3 { x: -30_000_000i64, y: -30_000_000i64, z: 0 },
        sample_hi: Point3 { x: 30_000_000, y: 30_000_000, z: 60_000_000 },
    }
}

/// The Halvorsen configuration: a 1.4, step 0.001.
pub open spec fn halvorsen_model() -> AttractorModel {
    AttractorModel {
        kind: AttractorKind::Halvorsen { a: 1_400_000 },
        orbit_count: 3000,
        orbit_len: 400,
        draw_skip: 800,
        delta_t: 1_000,
        camera: Point3 { x: -4_000_000i64, y: 0, z: -5_000_000i64 },
        center: Point3 { x: 0, y: 0, z: 0 },
        rot_x_rate: 1_000_000,
        rot_y_rate: 7_900_000,
        rot_z_rate: 1_300_000,
        delta_theta: 300,
        orbit_weight: 7_500,
        orbit_weight2: 3_750,
        color: Rgba { r: 30, g: 144, b: 255, a: 255 },
        sample_lo: Point3 { x: -4_000_000i64, y: -4_000_000i64, z: -4_000_000i64 },
        sample_hi: Point3 { x: 4_000_000, y: 4_000_000, z: 4_000_000 },
    }
}

/// The Thomas configuration: b 0.20, step 0.05.
pub open spec fn thomas_model() -> AttractorModel {
    AttractorModel {
        kind: AttractorKind::Thomas { b: 200_000 },
        orbit_count: 2000,
        orbit_len: 100,
        draw_skip: 700,
        delta_t: 50_000,
        camera: Point3 { x: -1_000_000i64, y: 0, z: 0 },
        center: Point3 { x: -4_000_000i64, y: 0, z: 0 },
        rot_x_rate: 1_000_000,
        rot_y_rate: 7_900_000,
        rot_z_rate: 1_300_000,
        delta_theta: 200,
        orbit_weight: 7_500,
        orbit_weight2: 3_750,
        color: Rgba { r: 100, g: 180, b: 0, a: 255 },
        sample_lo: Point3 { x: -10_000_000i64, y: -10_000_000i64, z: -10_000_000i64 },
        sample_hi: Point3 { x: 10_000_000, y: 10_000_000, z: 10_000_000 },
    }
}

/// Build the Lorenz model.
pub fn lorenz() -> (m: AttractorModel)
    ensures
        m == lorenz_model(),
        model_wf(m),
{
    AttractorModel {
        kind: AttractorKind::Lorenz { sigma: 10_000_000, rho: 28_000_000, beta: 2_666_667 },
        orbit_count: 400,
        orbit_len: 600,
        draw_skip: 1200,
        delta_t: 1_000,
        camera: Point3 { x: -10_000_000i64, y: 0, z: 15_000_000 },
        center: Point3 { x: 0, y: 0, z: 15_000_000 },
        rot_x_rate: 1_000_000,
        rot_y_rate: 7_900_000,
        rot_z_rate: 1_300_000,
        delta_theta: 600,
        orbit_weight: 25_000,
        orbit_weight2: 12_500,
        color: Rgba { r: 255, g: 0, b: 0, a: 255 },
        sample_lo: Point3 { x: -30_000_000i64, y: -30_000_000i64, z: 0 },
        sample_hi: Point3 { x: 30_000_000, y: 30_000_000, z: 60_000_000 },
    }
}

/// Build the Halvorsen model.
pub fn halvorsen() -> (m: AttractorModel)
    ensures
        m == halvorsen_model(),
        model_wf(m),
{
    AttractorModel {
        kind: AttractorKind::Halvorsen { a: 1_400_000 },
        orbit_count: 3000,
        orbit_len: 400,
        draw_skip: 800,
        delta_t: 1_000,
        camera: Point3 { x: -4_000_000i64, y: 0, z: -5_000_000i64 },
        center: Point3 { x: 0, y: 0, z: 0 },
        rot_x_rate: 1_000_000,
        rot_y_rate: 7_900_000,
        rot_z_rate: 1_300_000,
        delta_theta: 300,
        orbit_weight: 7_500,
        orbit_weight2: 3_750,
        color: Rgba { r: 30, g: 144, b: 255, a: 255 },
        sample_lo: Point3 { x: -4_000_000i64, y: -4_000_000i64, z: -4_000_000i64 },
        sample_hi: Point3 { x: 4_000_000, y: 4_000_000, z: 4_000_000 },
    }
}

/// Build the Thomas model.
pub fn thomas() -> (m: AttractorModel)
    ensures
        m == thomas_model(),
        model_wf(m),
{
    AttractorModel {
        kind: AttractorKind::Thomas { b: 200_000 },
        orbit_count: 2000,
        orbit_len: 100,
        draw_skip: 700,
        delta_t: 50_000,
        camera: Point3 { x: -1_000_000i64, y: 0, z: 0 },
        center: Point3 { x: -4_000_000i64, y: 0, z: 0 },
        rot_x_rate: 1_000_000,
        rot_y_rate: 7_900_000,
        rot_z_rate: 1_300_000,
        delta_theta: 200,
        orbit_weight: 7_500,
        orbit_weight2: 3_750,
        color: Rgba { r: 100, g: 180, b: 0, a: 255 },
        sample_lo: Point3 { x: -10_000_000i64, y: -10_000_000i64, z: -10_000_000i64 },
        sample_hi: Point3 { x: 10_000_000, y: 10_000_000, z: 10_000_000 },
    }
}

/// Relies on `rand::Rng::gen_range` over an inclusive `i64` range: for
/// `lo <= hi` the range is non-empty and the sampled value lies within it.
#[verifier::external_body]
fn random_in_range(lo: i64, hi: i64) -> (r: i64)
    requires
        lo <= hi,
    ensures
        lo <= r <= hi,
{
    rand::thread_rng().gen_range(lo..=hi)
}

impl AttractorModel {
    /// Draw an initial point uniformly from this model's sampling box.  The
    /// draw is random; every outcome lies within the box.
    pub fn sample_initial(&self) -> (p: Point3)
        requires
            model_wf(*self),
        ensures
            self.sample_lo.x <= p.x <= self.sample_hi.x,
            self.sample_lo.y <= p.y <= self.sample_hi.y,
            self.sample_lo.z <= p.z <= self.sample_hi.z,
            point_bounded(p),
    {
        Point3 {
            x: random_in_range(self.sample_lo.x, self.sample_hi.x),
            y: random_in_range(self.sample_lo.y, self.sample_hi.y),
            z: random_in_range(self.sample_lo.z, self.sample_hi.z),
        }
    }
}

} // verus!
