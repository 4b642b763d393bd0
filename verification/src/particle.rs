//! One simulated trajectory: a bounded trail of recent points, advanced one
//! integration step per tick.
//!
//! Seeding policy: a particle starts with a single point (its seed) and the
//! trail grows by one point per update until it holds `orbit_len` points;
//! from then on each update evicts the oldest point, so the length stays at
//! `orbit_len` exactly.  Warm-up (`draw_skip`) is applied by the scene as
//! that many ordinary updates at creation.

use crate::geom::{point_bounded, Point3};
use crate::model::{model_wf, step_spec, AttractorModel};
use vstd::prelude::*;

verus! {

/// A well-formed trail: non-empty, within the model's length bound, every
/// point bounded.
pub open spec fn trail_wf(t: Seq<Point3>, m: AttractorModel) -> bool {
    &&& 1 <= t.len() <= m.orbit_len
    &&& forall|i: int| 0 <= i < t.len() ==> point_bounded(#[trigger] t[i])
}

/// The trail after one tick: append the integrated successor of the newest
/// point, then evict the oldest point if the length would exceed
/// `orbit_len`.
pub open spec fn trail_next(t: Seq<Point3>, m: AttractorModel) -> Seq<Point3> {
    let grown = t.push(step_spec(m, t.last()));
    if grown.len() > m.orbit_len {
        grown.remove(0)
    } else {
        grown
    }
}

/// Once a trail is full, a tick keeps its length at `orbit_len` exactly:
/// one point enters and one leaves.
pub proof fn lemma_trail_len_stable(t: Seq<Point3>, m: AttractorModel)
    requires
        t.len() == m.orbit_len,
        m.orbit_len >= 1,
    ensures
        trail_next(t, m).len() == m.orbit_len,
{
}

/// A trail still filling up grows by exactly one point per tick.
pub proof fn lemma_trail_len_grows(t: Seq<Point3>, m: AttractorModel)
    requires
        1 <= t.len() < m.orbit_len,
    ensures
        trail_next(t, m).len() == t.len() + 1,
{
}

/// One simulated particle: the trail of its `orbit_len` most recent
/// positions, oldest first.
pub struct Particle {
    pub orbit: Vec<Point3>,
}

impl Particle {
    /// The trail as a sequence, oldest point first.
    pub open spec fn view(&self) -> Seq<Point3> {
        self.orbit@
    }

    /// Create a particle whose trail holds exactly the given seed point.
    pub fn new(model: &AttractorModel, seed: Point3) -> (p: Particle)
        requires
            model_wf(*model),
            point_bounded(seed),
        ensures
            p@ =~= seq![seed],
            trail_wf(p@, *model),
    {
        let mut orbit: Vec<Point3> = Vec::new();
        orbit.push(seed);
        Particle { orbit }
    }

    /// Advance the particle one tick: integrate one step from the newest
    /// point, append the result, and evict the oldest point if the trail
    /// is full.  Only this particle's own trail changes.
    pub fn update(&mut self, model: &AttractorModel)
        requires
            model_wf(*model),
            trail_wf(old(self)@, *model),
        ensures
            final(self)@ =~= trail_next(old(self)@, *model),
            trail_wf(final(self)@, *model),
            old(self)@.len() == model.orbit_len ==> final(self)@.len() == model.orbit_len,
            old(self)@.len() < model.orbit_len ==> final(self)@.len() == old(self)@.len() + 1,
    {
        let last = self.orbit[self.orbit.len() - 1];
        let next = model.step(last);
        self.orbit.push(next);
        if self.orbit.len() > model.orbit_len {
            self.orbit.remove(0);
        }
        proof {
            assert(self@ =~= trail_next(old(self)@, *model));
        }
    }

    /// The number of points currently in the trail.
    pub fn len(&self) -> (n: usize)
        ensures
            n == self@.len(),
    {
        self.orbit.len()
    }
}

} // verus!
