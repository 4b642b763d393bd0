//! The trail renderer: turns one particle's projected trail into drawable
//! line segments, applying, strictly in order, the minimum-movement filter,
//! depth-based color, depth-based width, and longitude-seam splitting.
//!
//! The scan keeps a previous coordinate `pre`; a point that is invalid
//! (undefined projection) or closer to `pre` than the minimum movement is
//! skipped without updating `pre`.  A drawn pair whose longitudes differ by
//! more than `PI_FP` is split into two segments that meet the seam at
//! `PI_FP` times the sign of each endpoint's longitude.

use crate::fixed::{bounded, fp_div, i128_tdiv, sdiv, tdiv, FP_MAX};
use crate::model::Rgba;
use crate::project::{projected_wf, Projected};
use crate::trig::{atan_fp, atan_fp_exec, HALF_PI_FP, PI_FP};
use vstd::prelude::*;

verus! {

/// Screen height in pixels that the minimum-movement filter is tuned for.
pub const WINDOW_H: i64 = 800;

/// The minimum movement in micro-radians: `PI_FP / WINDOW_H`, rounded down.
pub const MIN_MOVE_FP: i64 = 3_926;

/// Camera-proximity clip threshold (0.2 world units): anything nearer is
/// drawn fully transparent.
pub const DEPTH_CLIP_FP: i64 = 200_000;

/// The fully transparent color used below the clip threshold.
pub open spec fn transparent() -> Rgba {
    Rgba { r: 0, g: 0, b: 0, a: 0 }
}

/// One drawable line segment in angular screen coordinates, with a width
/// and a color.
#[derive(Clone, Copy, PartialEq, Eq, Structural, Debug)]
pub struct Segment {
    pub ax: i64,
    pub ay: i64,
    pub bx: i64,
    pub by: i64,
    pub weight: i64,
    pub color: Rgba,
}

/// The sign term of the float build's `signum`: zero counts as positive.
pub open spec fn sign_of(v: int) -> int {
    if v >= 0 {
        1
    } else {
        -1
    }
}

/// Color by depth: fully transparent nearer than the clip threshold,
/// otherwise the base color at full alpha.
pub open spec fn seg_color(base: Rgba, depth: int) -> Rgba {
    if depth < DEPTH_CLIP_FP {
        transparent()
    } else {
        base
    }
}

pub fn seg_color_exec(base: Rgba, depth: i64) -> (c: Rgba)
    ensures
        c == seg_color(base, depth as int),
{
    if depth < DEPTH_CLIP_FP {
        Rgba { r: 0, g: 0, b: 0, a: 0 }
    } else {
        base
    }
}

/// Width by depth: `2 * atan(orbit_weight2 / depth)`, a perspective taper
/// bounded by a full half turn however near the camera the point comes.
pub open spec fn seg_weight(w2: int, depth: int) -> int {
    2 * atan_fp(sdiv(w2, depth))
}

pub fn seg_weight_exec(w2: i64, depth: i64) -> (w: i64)
    requires
        bounded(w2 as int),
        0 <= depth <= 4 * FP_MAX,
    ensures
        w == seg_weight(w2 as int, depth as int),
        -2 * HALF_PI_FP <= w <= 2 * HALF_PI_FP,
{
    let t = fp_div(w2, depth);
    let a = atan_fp_exec(t);
    2 * a
}

/// Whether `cur` moved less than `min_move` micro-radians away from `pre`
/// on screen.  Comparing squared distances is exact: the rounded-down
/// root is below `min_move` exactly when the squared distance is below its
/// square.
pub open spec fn close_pair(pre: Projected, cur: Projected, min_move: int) -> bool {
    let dl = pre.lon - cur.lon;
    let dt = pre.lat - cur.lat;
    dl * dl + dt * dt < min_move * min_move
}

/// The segments one drawn pair emits: a single direct segment, or two
/// seam-splitting segments when the longitudes differ by more than
/// `PI_FP`, both at the pair's color and width and meeting the seam at
/// the average latitude.
pub open spec fn emit_pair(pre: Projected, cur: Projected, base: Rgba, w2: int) -> Seq<Segment>
    recommends
        projected_wf(pre),
        projected_wf(cur),
{
    let color = seg_color(base, cur.depth as int);
    let weight = seg_weight(w2, cur.depth as int) as i64;
    let dl = pre.lon - cur.lon;
    if dl > PI_FP || dl < -PI_FP {
        let cy = tdiv(pre.lat + cur.lat, 2) as i64;
        seq![
            Segment {
                ax: (PI_FP * sign_of(pre.lon as int)) as i64,
                ay: cy,
                bx: pre.lon,
                by: pre.lat,
                weight,
                color,
            },
            Segment {
                ax: (PI_FP * sign_of(cur.lon as int)) as i64,
                ay: cy,
                bx: cur.lon,
                by: cur.lat,
                weight,
                color,
            },
        ]
    } else {
        seq![
            Segment { ax: pre.lon, ay: pre.lat, bx: cur.lon, by: cur.lat, weight, color },
        ]
    }
}

fn emit_pair_exec(pre: Projected, cur: Projected, base: Rgba, w2: i64) -> (out: Vec<Segment>)
    requires
        projected_wf(pre),
        projected_wf(cur),
        bounded(w2 as int),
    ensures
        out@ =~= emit_pair(pre, cur, base, w2 as int),
{
    let color = seg_color_exec(base, cur.depth);
    let weight = seg_weight_exec(w2, cur.depth);
    let dl = pre.lon - cur.lon;
    let mut out: Vec<Segment> = Vec::new();
    if dl > PI_FP || dl < -PI_FP {
        let cy = i128_tdiv(pre.lat as i128 + cur.lat as i128, 2) as i64;
        let pre_seam: i64 = if pre.lon >= 0 {
            PI_FP
        } else {
            -PI_FP
        };
        let cur_seam: i64 = if cur.lon >= 0 {
            PI_FP
        } else {
            -PI_FP
        };
        out.push(Segment { ax: pre_seam, ay: cy, bx: pre.lon, by: pre.lat, weight, color });
        out.push(Segment { ax: cur_seam, ay: cy, bx: cur.lon, by: cur.lat, weight, color });
    } else {
        out.push(Segment { ax: pre.lon, ay: pre.lat, bx: cur.lon, by: cur.lat, weight, color });
    }
    out
}

/// The segments emitted while scanning `pts` with previous coordinate
/// `pre`: invalid or sub-minimum points are skipped and leave `pre` as it
/// was; every other point is drawn against `pre` and becomes the new `pre`.
pub open spec fn render_from(
    pts: Seq<Projected>,
    pre: Projected,
    base: Rgba,
    w2: int,
    min_move: int,
) -> Seq<Segment>
    decreases pts.len(),
{
    if pts.len() == 0 {
        Seq::empty()
    } else {
        let cur = pts[0];
        let rest = pts.subrange(1, pts.len() as int);
        if !cur.valid || close_pair(pre, cur, min_move) {
            render_from(rest, pre, base, w2, min_move)
        } else {
            emit_pair(pre, cur, base, w2) + render_from(rest, cur, base, w2, min_move)
        }
    }
}

/// The whole trail: the first valid point seeds `pre` and emits nothing;
/// leading invalid points are skipped.
pub open spec fn render_trail_spec(
    pts: Seq<Projected>,
    base: Rgba,
    w2: int,
    min_move: int,
) -> Seq<Segment>
    decreases pts.len(),
{
    if pts.len() == 0 {
        Seq::empty()
    } else {
        let rest = pts.subrange(1, pts.len() as int);
        if pts[0].valid {
            render_from(rest, pts[0], base, w2, min_move)
        } else {
            render_trail_spec(rest, base, w2, min_move)
        }
    }
}

/// Render one projected trail into drawable segments.
pub fn render_trail(pts: &Vec<Projected>, base: Rgba, w2: i64, min_move: i64) -> (out: Vec<
    Segment,
>)
    requires
        forall|i: int| 0 <= i < pts@.len() ==> projected_wf(#[trigger] pts@[i]),
        bounded(w2 as int),
        0 <= min_move <= PI_FP,
    ensures
        out@ == render_trail_spec(pts@, base, w2 as int, min_move as int),
{
    let n = pts.len();
    let mut out: Vec<Segment> = Vec::new();
    let mut started = false;
    let mut pre = Projected { valid: false, lon: 0, lat: 0, depth: 0 };
    let mut i: usize = 0;
    proof {
        assert(pts@.subrange(0, n as int) =~= pts@);
    }
    while i < n
        invariant
            0 <= i <= n,
            n == pts@.len(),
            forall|k: int| 0 <= k < pts@.len() ==> projected_wf(#[trigger] pts@[k]),
            bounded(w2 as int),
            0 <= min_move <= PI_FP,
            started ==> projected_wf(pre),
            !started ==> out@ + render_trail_spec(
                pts@.subrange(i as int, n as int),
                base,
                w2 as int,
                min_move as int,
            ) == render_trail_spec(pts@, base, w2 as int, min_move as int),
            started ==> out@ + render_from(
                pts@.subrange(i as int, n as int),
                pre,
                base,
                w2 as int,
                min_move as int,
            ) == render_trail_spec(pts@, base, w2 as int, min_move as int),
        decreases n - i,
    {
        let cur = pts[i];
        proof {
            assert(pts@.subrange(i as int, n as int)[0] == pts@[i as int]);
            assert(pts@.subrange(i as int, n as int).subrange(
                1,
                pts@.subrange(i as int, n as int).len() as int,
            ) =~= pts@.subrange(i as int + 1, n as int));
        }
        if !started {
            if cur.valid {
                started = true;
                pre = cur;
            }
        } else {
            let dl = pre.lon - cur.lon;
            let dt = pre.lat - cur.lat;
            proof {
                crate::fixed::lemma_mul_abs_bound(dl as int, dl as int, 2 * PI_FP as int, 2 * PI_FP as int);
                crate::fixed::lemma_mul_abs_bound(dt as int, dt as int, 2 * PI_FP as int, 2 * PI_FP as int);
                crate::fixed::lemma_mul_abs_bound(min_move as int, min_move as int, PI_FP as int, PI_FP as int);
            }
            let dsq: i64 = dl * dl + dt * dt;
            if cur.valid && dsq >= min_move * min_move {
                proof {
                    assert(!close_pair(pre, cur, min_move as int));
                }
                let mut segs = emit_pair_exec(pre, cur, base, w2);
                out.append(&mut segs);
                pre = cur;
            } else {
                proof {
                    if cur.valid {
                        assert(close_pair(pre, cur, min_move as int));
                    }
                }
            }
        }
        i = i + 1;
    }
    proof {
        assert(pts@.subrange(n as int, n as int) =~= Seq::<Projected>::empty());
        assert(out@ + Seq::<Segment>::empty() =~= out@);
    }
    out
}

/// Depth clipping: nearer than the threshold the color is fully
/// transparent; at or beyond it the base color is used unchanged.
pub proof fn lemma_depth_clipping(base: Rgba, depth: int)
    ensures
        depth < DEPTH_CLIP_FP ==> seg_color(base, depth) == transparent(),
        depth >= DEPTH_CLIP_FP ==> seg_color(base, depth) == base,
{
}

/// Minimum-movement suppression: a valid point closer to `pre` than the
/// minimum movement emits no segment and leaves `pre` unchanged for the
/// next comparison.
pub proof fn lemma_min_move_suppression(
    pts: Seq<Projected>,
    pre: Projected,
    base: Rgba,
    w2: int,
    min_move: int,
)
    requires
        pts.len() >= 1,
        close_pair(pre, pts[0], min_move),
    ensures
        render_from(pts, pre, base, w2, min_move) == render_from(
            pts.subrange(1, pts.len() as int),
            pre,
            base,
            w2,
            min_move,
        ),
{
}

/// Seam splitting: a drawn pair whose longitudes differ by more than
/// `PI_FP` emits exactly two segments, the first from the seam at the sign
/// of `pre`'s longitude to `pre`, the second from the seam at the sign of
/// `cur`'s longitude to `cur`, both at the average latitude, the same
/// width and the same color; never one direct segment across the gap.
pub proof fn lemma_seam_split(pre: Projected, cur: Projected, base: Rgba, w2: int)
    requires
        projected_wf(pre),
        projected_wf(cur),
        pre.lon - cur.lon > PI_FP || pre.lon - cur.lon < -PI_FP,
    ensures
        emit_pair(pre, cur, base, w2).len() == 2,
        emit_pair(pre, cur, base, w2)[0].ax == PI_FP * sign_of(pre.lon as int),
        emit_pair(pre, cur, base, w2)[0].bx == pre.lon,
        emit_pair(pre, cur, base, w2)[0].by == pre.lat,
        emit_pair(pre, cur, base, w2)[1].ax == PI_FP * sign_of(cur.lon as int),
        emit_pair(pre, cur, base, w2)[1].bx == cur.lon,
        emit_pair(pre, cur, base, w2)[1].by == cur.lat,
        emit_pair(pre, cur, base, w2)[0].ay == emit_pair(pre, cur, base, w2)[1].ay,
        emit_pair(pre, cur, base, w2)[0].ay == tdiv(pre.lat + cur.lat, 2),
        emit_pair(pre, cur, base, w2)[0].weight == emit_pair(pre, cur, base, w2)[1].weight,
        emit_pair(pre, cur, base, w2)[0].color == emit_pair(pre, cur, base, w2)[1].color,
{
    crate::fixed::lemma_tdiv_bound(pre.lat + cur.lat, 2);
}

/// A drawn pair within half a turn of longitude emits exactly one direct
/// segment from `pre` to `cur`.
pub proof fn lemma_direct_segment(pre: Projected, cur: Projected, base: Rgba, w2: int)
    requires
        projected_wf(pre),
        projected_wf(cur),
        -PI_FP <= pre.lon - cur.lon <= PI_FP,
    ensures
        emit_pair(pre, cur, base, w2).len() == 1,
        emit_pair(pre, cur, base, w2)[0] == (Segment {
            ax: pre.lon,
            ay: pre.lat,
            bx: cur.lon,
            by: cur.lat,
            weight: seg_weight(w2, cur.depth as int) as i64,
            color: seg_color(base, cur.depth as int),
        }),
{
}

/// Each trail point emits at most two segments: the whole scan emits at
/// most twice the number of points it visits.
pub proof fn lemma_render_count(
    pts: Seq<Projected>,
    pre: Projected,
    base: Rgba,
    w2: int,
    min_move: int,
)
    ensures
        render_from(pts, pre, base, w2, min_move).len() <= 2 * pts.len(),
    decreases pts.len(),
{
    if pts.len() > 0 {
        let cur = pts[0];
        let rest = pts.subrange(1, pts.len() as int);
        if !cur.valid || close_pair(pre, cur, min_move) {
            lemma_render_count(rest, pre, base, w2, min_move);
        } else {
            lemma_render_count(rest, cur, base, w2, min_move);
        }
    }
}

/// The bound for a whole trail: a trail of `n` points emits at most
/// `n - 1` drawn pairs, each a single segment doubled only at a seam
/// crossing, so at most `2 * (n - 1)` segments.
pub proof fn lemma_trail_segment_bound(pts: Seq<Projected>, base: Rgba, w2: int, min_move: int)
    ensures
        pts.len() >= 1 ==> render_trail_spec(pts, base, w2, min_move).len() <= 2 * (pts.len() - 1),
        render_trail_spec(pts, base, w2, min_move).len() <= 2 * pts.len(),
    decreases pts.len(),
{
    if pts.len() > 0 {
        let rest = pts.subrange(1, pts.len() as int);
        if pts[0].valid {
            lemma_render_count(rest, pts[0], base, w2, min_move);
        } else {
            lemma_trail_segment_bound(rest, base, w2, min_move);
        }
    }
}

} // verus!
