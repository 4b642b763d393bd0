//! The scene: a swarm of particles for one attractor model, the scene
//! rotation state, and the per-frame pipeline that projects every trail
//! and emits drawable segments.
//!
//! Each tick advances every particle one integration step (particles are
//! independent; order does not matter), then increments the scene angle by
//! `delta_theta` and recomputes the frame rotation from scratch as the
//! composition of elementary rotations about Z, then Y, then X, by the
//! angle times each axis rate.

use crate::fixed::{bounded, fp_add, fp_mul, sadd, smul};
use crate::geom::{
    mat_apply, mat_apply_spec, mat_bounded, mat_identity, point_bounded, point_sub,
    point_sub_spec, rotation_from_angles, rotation_matrix, Mat3, Point3,
};
use crate::model::{model_wf, AttractorModel, Rgba};
use crate::particle::{trail_next, trail_wf, Particle};
use crate::project::{project, project_spec, projected_wf, Projected};
use crate::render::{render_trail, render_trail_spec, Segment, MIN_MOVE_FP};
use vstd::prelude::*;

verus! {

/// Length of each decorative world-axis overlay line, in micro-units
/// (500 world units).
pub const AXIS_LEN_FP: i64 = 500_000_000;

/// Width of the axis overlay lines (0.002 radians on screen).
pub const AXIS_WEIGHT_FP: i64 = 2_000;

/// Center a point on the model, rotate it into the frame, and project it:
/// the whole placement of one trail point on the celestial sphere.
pub open spec fn place_spec(rot: Mat3, center: Point3, camera: Point3, p: Point3) -> Projected {
    let d = point_sub_spec(p, center);
    let dp = Point3 { x: d.0 as i64, y: d.1 as i64, z: d.2 as i64 };
    let m = mat_apply_spec(rot, dp);
    let rp = Point3 { x: m.0 as i64, y: m.1 as i64, z: m.2 as i64 };
    project_spec(camera, rp)
}

/// Place one point.
pub fn place(rot: &Mat3, center: Point3, camera: Point3, p: Point3) -> (q: Projected)
    requires
        mat_bounded(*rot),
        point_bounded(center),
        point_bounded(camera),
        point_bounded(p),
    ensures
        q == place_spec(*rot, center, camera, p),
        projected_wf(q),
{
    let dp = point_sub(p, center);
    let rp = mat_apply(rot, dp);
    project(camera, rp)
}

/// A whole trail placed on the sphere, point by point, oldest first.
pub open spec fn project_trail_spec(
    t: Seq<Point3>,
    rot: Mat3,
    center: Point3,
    camera: Point3,
) -> Seq<Projected> {
    Seq::new(t.len(), |i: int| place_spec(rot, center, camera, t[i]))
}

/// Project every point of one trail.
pub fn project_trail(t: &Vec<Point3>, rot: &Mat3, center: Point3, camera: Point3) -> (out: Vec<
    Projected,
>)
    requires
        mat_bounded(*rot),
        point_bounded(center),
        point_bounded(camera),
        forall|i: int| 0 <= i < t@.len() ==> point_bounded(#[trigger] t@[i]),
    ensures
        out@ =~= project_trail_spec(t@, *rot, center, camera),
        forall|i: int| 0 <= i < out@.len() ==> projected_wf(#[trigger] out@[i]),
{
    let n = t.len();
    let mut out: Vec<Projected> = Vec::new();
    let mut i: usize = 0;
    while i < n
        invariant
            0 <= i <= n,
            n == t@.len(),
            out@.len() == i,
            mat_bounded(*rot),
            point_bounded(center),
            point_bounded(camera),
            forall|k: int| 0 <= k < t@.len() ==> point_bounded(#[trigger] t@[k]),
            forall|k: int|
                0 <= k < i ==> #[trigger] out@[k] == place_spec(*rot, center, camera, t@[k]),
            forall|k: int| 0 <= k < i ==> projected_wf(#[trigger] out@[k]),
        decreases n - i,
    {
        let q = place(rot, center, camera, t[i]);
        out.push(q);
        i = i + 1;
    }
    out
}

/// The scene: the model, its particles, and the rotation state.
pub struct Scene {
    pub model: AttractorModel,
    pub particles: Vec<Particle>,
    pub theta: i64,
    pub rotation: Mat3,
}

/// Scene invariant: a well-formed model, exactly `orbit_count` particles
/// each with a well-formed trail, a bounded angle and a bounded rotation.
pub open spec fn scene_wf(s: Scene) -> bool {
    &&& model_wf(s.model)
    &&& s.particles@.len() == s.model.orbit_count
    &&& forall|i: int|
        0 <= i < s.particles@.len() ==> trail_wf(#[trigger] s.particles@[i]@, s.model)
    &&& bounded(s.theta as int)
    &&& mat_bounded(s.rotation)
}

/// The trail length every particle has right after scene construction:
/// one seed point plus one point per warm-up step, within the trail bound.
pub open spec fn warmed_len(m: AttractorModel) -> int {
    if m.draw_skip + 1 <= m.orbit_len {
        m.draw_skip + 1
    } else {
        m.orbit_len as int
    }
}

/// Every shipped configuration warms its particles past the trail bound,
/// so a freshly built scene already has every trail at `orbit_len` exactly,
/// and each later tick keeps it there.
pub proof fn lemma_shipped_models_warm_full()
    ensures
        warmed_len(crate::model::lorenz_model()) == crate::model::lorenz_model().orbit_len,
        warmed_len(crate::model::halvorsen_model()) == crate::model::halvorsen_model().orbit_len,
        warmed_len(crate::model::thomas_model()) == crate::model::thomas_model().orbit_len,
{
}

/// The segments particle `i` contributes to a frame.
pub open spec fn particle_segments(s: Scene, i: int) -> Seq<Segment> {
    render_trail_spec(
        project_trail_spec(s.particles@[i]@, s.rotation, s.model.center, s.model.camera),
        s.model.color,
        s.model.orbit_weight2 as int,
        MIN_MOVE_FP as int,
    )
}

/// The segments of the first `n` particles, in particle order.
pub open spec fn frame_prefix(s: Scene, n: int) -> Seq<Segment>
    decreases n,
{
    if n <= 0 {
        Seq::empty()
    } else {
        frame_prefix(s, n - 1) + particle_segments(s, n - 1)
    }
}

/// One frame: every particle's segments, in particle order.
pub open spec fn frame_spec(s: Scene) -> Seq<Segment> {
    frame_prefix(s, s.particles@.len() as int)
}

impl Scene {
    /// Build a scene: `orbit_count` particles, each seeded at a random
    /// point of the model's sampling box and warmed up through
    /// `draw_skip` integration steps; the angle starts at zero and the
    /// rotation at the identity.
    pub fn new(model: AttractorModel) -> (s: Scene)
        requires
            model_wf(model),
        ensures
            scene_wf(s),
            s.model == model,
            s.theta == 0,
            s.rotation == mat_identity(),
            forall|i: int|
                0 <= i < s.particles@.len() ==> (#[trigger] s.particles@[i]@).len() == warmed_len(
                    model,
                ),
    {
        let count = model.orbit_count;
        let skip = model.draw_skip;
        let mut particles: Vec<Particle> = Vec::new();
        let mut i: usize = 0;
        while i < count
            invariant
                0 <= i <= count,
                model_wf(model),
                count == model.orbit_count,
                skip == model.draw_skip,
                particles@.len() == i,
                forall|k: int|
                    0 <= k < i ==> trail_wf(#[trigger] particles@[k]@, model),
                forall|k: int|
                    0 <= k < i ==> (#[trigger] particles@[k]@).len() == warmed_len(model),
            decreases count - i,
        {
            let seed = model.sample_initial();
            let mut p = Particle::new(&model, seed);
            let mut j: usize = 0;
            while j < skip
                invariant
                    0 <= j <= skip,
                    model_wf(model),
                    skip == model.draw_skip,
                    trail_wf(p@, model),
                    p@.len() == if j + 1 <= model.orbit_len {
                        j + 1
                    } else {
                        model.orbit_len as int
                    },
                decreases skip - j,
            {
                p.update(&model);
                j = j + 1;
            }
            particles.push(p);
            i = i + 1;
        }
        Scene { model, particles, theta: 0, rotation: identity_exec() }
    }

    /// Advance the scene one tick: every particle integrates one step,
    /// the scene angle grows by `delta_theta`, and the frame rotation is
    /// recomputed from the new angle and the per-axis rates.
    pub fn update(&mut self)
        requires
            scene_wf(*old(self)),
        ensures
            scene_wf(*final(self)),
            final(self).model == old(self).model,
            final(self).particles@.len() == old(self).particles@.len(),
            forall|i: int|
                0 <= i < old(self).particles@.len() ==> #[trigger] final(self).particles@[i]@
                    == trail_next(old(self).particles@[i]@, old(self).model),
            final(self).theta == sadd(old(self).theta as int, old(self).model.delta_theta as int),
            final(self).rotation == rotation_from_angles(
                smul(final(self).theta as int, old(self).model.rot_x_rate as int),
                smul(final(self).theta as int, old(self).model.rot_y_rate as int),
                smul(final(self).theta as int, old(self).model.rot_z_rate as int),
            ),
    {
        let model = self.model;
        let n = self.particles.len();
        let mut i: usize = 0;
        while i < n
            invariant
                0 <= i <= n,
                model_wf(model),
                model == self.model,
                self.model == old(self).model,
                self.theta == old(self).theta,
                self.rotation == old(self).rotation,
                n == self.particles@.len(),
                n == old(self).particles@.len(),
                forall|k: int|
                    0 <= k < n ==> trail_wf(#[trigger] old(self).particles@[k]@, model),
                forall|k: int|
                    0 <= k < i ==> #[trigger] self.particles@[k]@ == trail_next(
                        old(self).particles@[k]@,
                        model,
                    ),
                forall|k: int|
                    0 <= k < i ==> trail_wf(#[trigger] self.particles@[k]@, model),
                forall|k: int|
                    i <= k < n ==> #[trigger] self.particles@[k] == old(self).particles@[k],
            decreases n - i,
        {
            self.particles[i].update(&model);
            i = i + 1;
        }
        self.theta = fp_add(self.theta, model.delta_theta);
        let ax = fp_mul(self.theta, model.rot_x_rate);
        let ay = fp_mul(self.theta, model.rot_y_rate);
        let az = fp_mul(self.theta, model.rot_z_rate);
        self.rotation = rotation_matrix(ax, ay, az);
    }

    /// Emit the current frame: every particle's trail, projected with the
    /// current rotation and rendered into segments, in particle order.
    pub fn draw(&self) -> (out: Vec<Segment>)
        requires
            scene_wf(*self),
        ensures
            out@ == frame_spec(*self),
    {
        let n = self.particles.len();
        let mut out: Vec<Segment> = Vec::new();
        let mut i: usize = 0;
        while i < n
            invariant
                0 <= i <= n,
                scene_wf(*self),
                n == self.particles@.len(),
                out@ == frame_prefix(*self, i as int),
            decreases n - i,
        {
            let p = &self.particles[i];
            proof {
                assert(trail_wf(self.particles@[i as int]@, self.model));
            }
            let projected = project_trail(
                &p.orbit,
                &self.rotation,
                self.model.center,
                self.model.camera,
            );
            let mut segs = render_trail(
                &projected,
                self.model.color,
                self.model.orbit_weight2,
                MIN_MOVE_FP,
            );
            out.append(&mut segs);
            i = i + 1;
        }
        out
    }

    /// The decorative world-axis overlay: three lines from the world
    /// origin to a fixed distance along each axis, placed like any trail
    /// point and colored blue (X), green (Y) and white (Z).
    #[verifier::rlimit(50)]
    pub fn draw_axis(&self) -> (out: Vec<Segment>)
        requires
            scene_wf(*self),
        ensures
            out@ =~= axis_segments_spec(*self),
    {
        let o = place(&self.rotation, self.model.center, self.model.camera, Point3 { x: 0, y: 0, z: 0 });
        let qx = place(
            &self.rotation,
            self.model.center,
            self.model.camera,
            Point3 { x: AXIS_LEN_FP, y: 0, z: 0 },
        );
        let qy = place(
            &self.rotation,
            self.model.center,
            self.model.camera,
            Point3 { x: 0, y: AXIS_LEN_FP, z: 0 },
        );
        let qz = place(
            &self.rotation,
            self.model.center,
            self.model.camera,
            Point3 { x: 0, y: 0, z: AXIS_LEN_FP },
        );
        let mut out: Vec<Segment> = Vec::new();
        out.push(axis_line(o, qx, Rgba { r: 0, g: 0, b: 255, a: 255 }));
        out.push(axis_line(o, qy, Rgba { r: 0, g: 128, b: 0, a: 255 }));
        out.push(axis_line(o, qz, Rgba { r: 255, g: 255, b: 255, a: 255 }));
        out
    }
}

/// One axis overlay line from the projected origin to a projected axis
/// endpoint.
pub open spec fn axis_line_spec(o: Projected, q: Projected, color: Rgba) -> Segment {
    Segment { ax: o.lon, ay: o.lat, bx: q.lon, by: q.lat, weight: AXIS_WEIGHT_FP, color }
}

fn axis_line(o: Projected, q: Projected, color: Rgba) -> (s: Segment)
    ensures
        s == axis_line_spec(o, q, color),
{
    Segment { ax: o.lon, ay: o.lat, bx: q.lon, by: q.lat, weight: AXIS_WEIGHT_FP, color }
}

/// The three axis overlay segments of the current frame.
pub open spec fn axis_segments_spec(s: Scene) -> Seq<Segment> {
    let o = place_spec(s.rotation, s.model.center, s.model.camera, Point3 { x: 0, y: 0, z: 0 });
    let qx = place_spec(
        s.rotation,
        s.model.center,
        s.model.camera,
        Point3 { x: AXIS_LEN_FP, y: 0, z: 0 },
    );
    let qy = place_spec(
        s.rotation,
        s.model.center,
        s.model.camera,
        Point3 { x: 0, y: AXIS_LEN_FP, z: 0 },
    );
    let qz = place_spec(
        s.rotation,
        s.model.center,
        s.model.camera,
        Point3 { x: 0, y: 0, z: AXIS_LEN_FP },
    );
    seq![
        axis_line_spec(o, qx, Rgba { r: 0, g: 0, b: 255, a: 255 }),
        axis_line_spec(o, qy, Rgba { r: 0, g: 128, b: 0, a: 255 }),
        axis_line_spec(o, qz, Rgba { r: 255, g: 255, b: 255, a: 255 }),
    ]
}

/// The identity rotation, as a value.
fn identity_exec() -> (m: Mat3)
    ensures
        m == mat_identity(),
        mat_bounded(m),
{
    Mat3 {
        m00: crate::fixed::SCALE,
        m01: 0,
        m02: 0,
        m10: 0,
        m11: crate::fixed::SCALE,
        m12: 0,
        m20: 0,
        m21: 0,
        m22: crate::fixed::SCALE,
    }
}

} // verus!
