//! End-to-end and component tests for the attractor pipeline.

use attractors::fixed::{fp_add, fp_div, fp_mul, isqrt, FP_MAX, SCALE};
use attractors::geom::{rotation_matrix, Point3};
use attractors::model::{lorenz, thomas, AttractorKind, Rgba};
use attractors::particle::Particle;
use attractors::project::{project, Projected};
use attractors::render::{render_trail, seg_weight_exec, Segment, DEPTH_CLIP_FP, MIN_MOVE_FP};
use attractors::scene::Scene;
use attractors::trig::{
    acos_fp_exec, atan_fp_exec, cos_fp_exec, sin_fp_exec, HALF_PI_FP, PI_FP, QUARTER_PI_FP,
    TAU_FP,
};

fn to_f(v: i64) -> f64 {
    v as f64 / SCALE as f64
}

fn proj(lon: i64, lat: i64, depth: i64) -> Projected {
    Projected { valid: true, lon, lat, depth }
}

#[test]
fn fixed_point_ops_are_exact() {
    assert_eq!(fp_mul(2_500_000, 4_000_000), 10_000_000);
    assert_eq!(fp_mul(-2_500_000, 4_000_000), -10_000_000);
    assert_eq!(fp_add(FP_MAX, FP_MAX), FP_MAX);
    assert_eq!(fp_add(-FP_MAX, -FP_MAX), -FP_MAX);
    assert_eq!(fp_div(1_000_000, 2_000_000), 500_000);
    assert_eq!(fp_div(1_000_000, 0), FP_MAX);
    assert_eq!(fp_div(-1_000_000, 0), -FP_MAX);
    assert_eq!(fp_div(0, 0), 0);
}

#[test]
fn isqrt_rounds_down() {
    assert_eq!(isqrt(0), 0);
    assert_eq!(isqrt(3), 1);
    assert_eq!(isqrt(4), 2);
    assert_eq!(isqrt(10), 3);
    assert_eq!(isqrt(1_000_000_000_000), 1_000_000);
}

#[test]
fn sine_matches_the_circle() {
    assert_eq!(sin_fp_exec(0), 0);
    assert_eq!(sin_fp_exec(PI_FP), 0);
    assert_eq!(sin_fp_exec(HALF_PI_FP), 999_999);
    for &x in &[0i64, 300_000, 1_000_000, 4_000_000, -500_000, 6_000_000] {
        let approx = to_f(sin_fp_exec(x));
        let exact = to_f(x).sin();
        assert!((approx - exact).abs() < 0.002, "sin({}) = {} vs {}", x, approx, exact);
        let c = to_f(cos_fp_exec(x));
        assert!((c - to_f(x).cos()).abs() < 0.002);
    }
}

#[test]
fn sine_is_exactly_periodic() {
    for &x in &[0i64, 123_456, -987_654, 3_141_593, 5_000_000] {
        assert_eq!(sin_fp_exec(x + TAU_FP), sin_fp_exec(x));
        assert_eq!(cos_fp_exec(x + TAU_FP), cos_fp_exec(x));
    }
}

#[test]
fn arctangent_and_arccosine_hit_their_anchors() {
    assert_eq!(atan_fp_exec(0), 0);
    assert_eq!(atan_fp_exec(SCALE), QUARTER_PI_FP);
    assert_eq!(atan_fp_exec(-SCALE), -QUARTER_PI_FP);
    assert_eq!(acos_fp_exec(-SCALE), PI_FP);
    assert_eq!(acos_fp_exec(SCALE), 0);
    for &t in &[2_500i64, 500_000, 900_000, 3_000_000, -700_000] {
        let approx = to_f(atan_fp_exec(t));
        let exact = to_f(t).atan();
        assert!((approx - exact).abs() < 0.002, "atan({})", t);
    }
    for &u in &[-900_000i64, -500_000, 0, 400_000, 999_000] {
        let approx = to_f(acos_fp_exec(u));
        let exact = to_f(u).acos();
        assert!((approx - exact).abs() < 0.002, "acos({})", u);
    }
}

#[test]
fn integration_is_deterministic() {
    let m = lorenz();
    let p = Point3 { x: 5_000_000, y: -3_000_000, z: 20_000_000 };
    assert_eq!(m.step(p), m.step(p));
    let t = thomas();
    let q = Point3 { x: 1_500_000, y: 2_500_000, z: -500_000 };
    assert_eq!(t.step(q), t.step(q));
}

#[test]
fn lorenz_step_follows_the_euler_formula() {
    let m = lorenz();
    let seed = Point3 { x: SCALE, y: SCALE, z: SCALE };
    let s1 = m.step(seed);
    assert_eq!(s1, Point3 { x: 1_000_000, y: 1_026_000, z: 998_334 });
    // delta = (sigma(y - x), x(rho - z) - y, xy - beta z) * dt from (1, 1, 1)
    assert!((to_f(s1.y) - 1.026).abs() < 1e-4);
    assert!((to_f(s1.z) - 0.998333).abs() < 1e-4);
}

#[test]
fn thomas_step_uses_the_sine_field() {
    let t = thomas();
    let b = match t.kind {
        AttractorKind::Thomas { b } => b,
        _ => unreachable!(),
    };
    let p = Point3 { x: 1_000_000, y: 2_000_000, z: -500_000 };
    let s = t.step(p);
    let expect_dx = to_f(p.y).sin() - to_f(b) * to_f(p.x);
    let got_dx = (to_f(s.x) - to_f(p.x)) / to_f(t.delta_t);
    assert!((got_dx - expect_dx).abs() < 0.01, "{} vs {}", got_dx, expect_dx);
}

#[test]
fn trail_grows_then_holds_its_bound() {
    let mut m = lorenz();
    m.orbit_count = 1;
    m.orbit_len = 3;
    let seed = Point3 { x: SCALE, y: SCALE, z: SCALE };
    let mut p = Particle::new(&m, seed);
    assert_eq!(p.orbit.len(), 1);
    p.update(&m);
    assert_eq!(p.orbit.len(), 2);
    p.update(&m);
    assert_eq!(p.orbit.len(), 3);
    for _ in 0..5 {
        p.update(&m);
        assert_eq!(p.orbit.len(), 3);
    }
}

#[test]
fn trail_evicts_oldest_first() {
    let mut m = lorenz();
    m.orbit_count = 1;
    m.orbit_len = 2;
    let seed = Point3 { x: SCALE, y: SCALE, z: SCALE };
    let s1 = m.step(seed);
    let s2 = m.step(s1);
    let mut p = Particle::new(&m, seed);
    p.update(&m);
    assert_eq!(p.orbit[0], seed);
    assert_eq!(p.orbit[1], s1);
    p.update(&m);
    assert_eq!(p.orbit[0], s1);
    assert_eq!(p.orbit[1], s2);
}

#[test]
fn rotation_returns_after_a_full_turn() {
    let ax = 123_456i64;
    let ay = -654_321i64;
    let az = 42_000i64;
    assert_eq!(rotation_matrix(ax + TAU_FP, ay, az), rotation_matrix(ax, ay, az));
    assert_eq!(rotation_matrix(ax, ay + TAU_FP, az + TAU_FP), rotation_matrix(ax, ay, az));
}

#[test]
fn forward_axis_projects_to_longitude_pi() {
    let camera = Point3 { x: -1_000_000, y: 0, z: 0 };
    let p = Point3 { x: -5_000_000, y: 0, z: 0 };
    let q = project(camera, p);
    assert!(q.valid);
    assert_eq!(q.lon, PI_FP);
    assert_eq!(q.lat, 0);
    assert_eq!(q.depth, 4_000_000);
}

#[test]
fn vertical_axis_point_is_invalid_not_a_crash() {
    let camera = Point3 { x: 2_000_000, y: -1_000_000, z: 0 };
    let p = Point3 { x: 2_000_000, y: -1_000_000, z: 7_000_000 };
    let q = project(camera, p);
    assert!(!q.valid);
    assert_eq!(q.depth, 7_000_000);
}

#[test]
fn seam_crossing_emits_two_segments() {
    let red = Rgba { r: 255, g: 0, b: 0, a: 255 };
    let pre = proj(3_000_000, 100_000, 5_000_000);
    let cur = proj(-3_000_000, 300_000, 5_000_000);
    let segs = render_trail(&vec![pre, cur], red, 12_500, MIN_MOVE_FP);
    assert_eq!(segs.len(), 2);
    let s0 = segs[0];
    let s1 = segs[1];
    assert_eq!(s0.ax, PI_FP);
    assert_eq!(s0.bx, 3_000_000);
    assert_eq!(s0.by, 100_000);
    assert_eq!(s1.ax, -PI_FP);
    assert_eq!(s1.bx, -3_000_000);
    assert_eq!(s1.by, 300_000);
    assert_eq!(s0.ay, 200_000);
    assert_eq!(s1.ay, 200_000);
    assert_eq!(s0.weight, 5_146);
    assert_eq!(s1.weight, 5_146);
    assert_eq!(s0.color, red);
    assert_eq!(s1.color, red);
}

#[test]
fn nearby_pair_draws_one_direct_segment() {
    let red = Rgba { r: 255, g: 0, b: 0, a: 255 };
    let pre = proj(100_000, 0, 5_000_000);
    let cur = proj(300_000, 50_000, 5_000_000);
    let segs = render_trail(&vec![pre, cur], red, 12_500, MIN_MOVE_FP);
    assert_eq!(segs.len(), 1);
    assert_eq!(segs[0].ax, 100_000);
    assert_eq!(segs[0].ay, 0);
    assert_eq!(segs[0].bx, 300_000);
    assert_eq!(segs[0].by, 50_000);
}

#[test]
fn sub_pixel_movement_is_suppressed_and_pre_kept() {
    let red = Rgba { r: 255, g: 0, b: 0, a: 255 };
    let a = proj(0, 0, 5_000_000);
    let b = proj(1_000, 0, 5_000_000);  // 1000 < MIN_MOVE_FP: skipped
    let c = proj(200_000, 0, 5_000_000);
    let segs = render_trail(&vec![a, b, c], red, 12_500, MIN_MOVE_FP);
    assert_eq!(segs.len(), 1);
    // the drawn segment starts at a, not at the suppressed b
    assert_eq!(segs[0].ax, 0);
    assert_eq!(segs[0].bx, 200_000);
    let none = render_trail(&vec![a, b], red, 12_500, MIN_MOVE_FP);
    assert_eq!(none.len(), 0);
}

#[test]
fn depth_clipping_zeroes_the_alpha() {
    let red = Rgba { r: 255, g: 0, b: 0, a: 255 };
    let a = proj(0, 0, 5_000_000);
    let near = proj(200_000, 0, 100_000);  // depth 0.1 < 0.2
    let far = proj(200_000, 0, 5_000_000);  // depth 5.0
    let segs = render_trail(&vec![a, near], red, 12_500, MIN_MOVE_FP);
    assert_eq!(segs.len(), 1);
    assert_eq!(segs[0].color, Rgba { r: 0, g: 0, b: 0, a: 0 });
    let segs = render_trail(&vec![a, far], red, 12_500, MIN_MOVE_FP);
    assert_eq!(segs[0].color, red);
    assert!(100_000 < DEPTH_CLIP_FP && 5_000_000 >= DEPTH_CLIP_FP);
}

#[test]
fn invalid_points_are_skipped_like_filtered_ones() {
    let red = Rgba { r: 255, g: 0, b: 0, a: 255 };
    let a = proj(0, 0, 5_000_000);
    let bad = Projected { valid: false, lon: 0, lat: 0, depth: 1_000_000 };
    let c = proj(200_000, 0, 5_000_000);
    let segs = render_trail(&vec![bad, a, bad, c], red, 12_500, MIN_MOVE_FP);
    assert_eq!(segs.len(), 1);
    assert_eq!(segs[0].ax, 0);
    assert_eq!(segs[0].bx, 200_000);
}

#[test]
fn perspective_weight_tapers_with_depth() {
    assert_eq!(seg_weight_exec(12_500, 5_000_000), 5_146);
    assert_eq!(seg_weight_exec(12_500, 100_000), 251_688);
    // at the camera the taper saturates at a half turn, never beyond
    assert_eq!(seg_weight_exec(12_500, 0), 3_141_592);
}

#[test]
fn end_to_end_lorenz_scenario() {
    let mut m = lorenz();
    m.orbit_count = 1;
    m.orbit_len = 3;
    m.delta_t = 1_000;  // 0.001 in micro-units
    let seed = Point3 { x: SCALE, y: SCALE, z: SCALE };
    let s1 = m.step(seed);
    let s2 = m.step(s1);
    let mut p = Particle::new(&m, seed);
    p.update(&m);
    p.update(&m);
    assert_eq!(p.orbit.len(), 3);
    assert_eq!(p.orbit[0], seed);
    assert_eq!(p.orbit[1], s1);
    assert_eq!(p.orbit[2], s2);
    assert_eq!(s1, Point3 { x: 1_000_000, y: 1_026_000, z: 998_334 });
    assert_eq!(s2, Point3 { x: 1_000_260, y: 1_051_975, z: 996_698 });
    assert!((to_f(s1.x) - 1.0).abs() < 1e-4);
    assert!((to_f(s1.y) - 1.026).abs() < 1e-4);
    assert!((to_f(s1.z) - 0.99833).abs() < 1e-4);
}

#[test]
fn scene_builds_updates_and_draws() {
    let mut m = lorenz();
    m.orbit_count = 2;
    m.orbit_len = 4;
    m.draw_skip = 2;
    let mut s = Scene::new(m);
    assert_eq!(s.particles.len(), 2);
    assert_eq!(s.theta, 0);
    for p in &s.particles {
        assert_eq!(p.orbit.len(), 3);  // seed plus two warm-up steps
    }
    s.update();
    assert_eq!(s.theta, m.delta_theta);
    for p in &s.particles {
        assert_eq!(p.orbit.len(), 4);
    }
    s.update();
    assert_eq!(s.theta, 2 * m.delta_theta);
    for p in &s.particles {
        assert_eq!(p.orbit.len(), 4);
    }
    let ax = fp_mul(s.theta, m.rot_x_rate);
    let ay = fp_mul(s.theta, m.rot_y_rate);
    let az = fp_mul(s.theta, m.rot_z_rate);
    assert_eq!(s.rotation, rotation_matrix(ax, ay, az));
    let frame: Vec<Segment> = s.draw();
    assert!(frame.len() <= 2 * 4 * 2);
    let axes = s.draw_axis();
    assert_eq!(axes.len(), 3);
    assert_eq!(axes[0].color, Rgba { r: 0, g: 0, b: 255, a: 255 });
}

#[test]
fn initial_points_come_from_the_sampling_box() {
    let m = lorenz();
    for _ in 0..20 {
        let p = m.sample_initial();
        assert!(m.sample_lo.x <= p.x && p.x <= m.sample_hi.x);
        assert!(m.sample_lo.y <= p.y && p.y <= m.sample_hi.y);
        assert!(m.sample_lo.z <= p.z && p.z <= m.sample_hi.z);
    }
}

#[test]
fn model_constants_match_their_variants() {
    let l = lorenz();
    assert_eq!(l.orbit_count, 400);
    assert_eq!(l.orbit_len, 600);
    assert_eq!(l.color, Rgba { r: 255, g: 0, b: 0, a: 255 });
    assert!(matches!(l.kind, AttractorKind::Lorenz { .. }));
    let t = thomas();
    assert_eq!(t.delta_t, 50_000);
    assert!(matches!(t.kind, AttractorKind::Thomas { .. }));
    let h = attractors::model::halvorsen();
    assert_eq!(h.orbit_count, 3000);
    assert!(matches!(h.kind, AttractorKind::Halvorsen { .. }));
}
