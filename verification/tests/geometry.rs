use wirecube::fx::SCALE;
use wirecube::geom::{
    compose_rotation, project, rotate_xy, rotate_xz, rotate_yz, to_screen, transform_vertex,
    translate_z, Point2, Point3, RotationFlags, ViewBounds,
};

fn sq(v: i64) -> i64 {
    v * v
}

#[test]
fn rotate_xz_quarter_turn() {
    // cos 90deg = 0, sin 90deg = 1: (x, z) goes to (-z, x).
    let p = Point3 { x: 250_000, y: 111, z: 250_000 };
    let r = rotate_xz(&p, 0, SCALE);
    assert_eq!(r, Point3 { x: -250_000, y: 111, z: 250_000 });
    let q = rotate_xz(&Point3 { x: 300_000, y: -5, z: -100_000 }, 0, SCALE);
    assert_eq!(q, Point3 { x: 100_000, y: -5, z: 300_000 });
}

#[test]
fn rotate_xz_preserves_radius_exactly_on_scaled_circle() {
    // (600000, 800000) lies exactly on the scaled unit circle:
    // 0.6^2 + 0.8^2 = 1, so x^2 + z^2 is preserved exactly here.
    let p = Point3 { x: 250_000, y: 7, z: 250_000 };
    let r = rotate_xz(&p, 600_000, 800_000);
    assert_eq!(r, Point3 { x: -50_000, y: 7, z: 350_000 });
    assert_eq!(sq(r.x) + sq(r.z), sq(p.x) + sq(p.z));
    assert_eq!(r.y, p.y);
}

#[test]
fn rotate_yz_preserves_radius_exactly_on_scaled_circle() {
    let p = Point3 { x: 42, y: 250_000, z: 250_000 };
    let r = rotate_yz(&p, 600_000, 800_000);
    assert_eq!(r, Point3 { x: 42, y: -50_000, z: 350_000 });
    assert_eq!(sq(r.y) + sq(r.z), sq(p.y) + sq(p.z));
    assert_eq!(r.x, p.x);
}

#[test]
fn rotate_xy_preserves_radius_exactly_on_scaled_circle() {
    let p = Point3 { x: 250_000, y: 250_000, z: -9 };
    let r = rotate_xy(&p, 600_000, 800_000);
    assert_eq!(r, Point3 { x: -50_000, y: 350_000, z: -9 });
    assert_eq!(sq(r.x) + sq(r.y), sq(p.x) + sq(p.y));
    assert_eq!(r.z, p.z);
}

#[test]
fn compose_all_flags_off_is_identity() {
    let p = Point3 { x: 123_456, y: -654_321, z: 999 };
    let f = RotationFlags { xz: false, yz: false, xy: false };
    let r = compose_rotation(&p, 531_324, 847_173, f);
    assert_eq!(r, p);
}

#[test]
fn compose_only_xz_equals_rotate_xz() {
    let p = Point3 { x: 123_456, y: -654_321, z: 999 };
    let f = RotationFlags { xz: true, yz: false, xy: false };
    let c = 531_324;
    let s = 847_173;
    assert_eq!(compose_rotation(&p, c, s, f), rotate_xz(&p, c, s));
}

#[test]
fn compose_applies_xz_then_yz_then_xy() {
    let p = Point3 { x: 250_000, y: 111, z: 250_000 };
    let f = RotationFlags { xz: true, yz: true, xy: true };
    let c = 600_000;
    let s = 800_000;
    let by_hand = rotate_xy(&rotate_yz(&rotate_xz(&p, c, s), c, s), c, s);
    assert_eq!(compose_rotation(&p, c, s, f), by_hand);
}

#[test]
fn translate_z_moves_depth_only() {
    let p = Point3 { x: 1, y: 2, z: 250_000 };
    let r = translate_z(&p, SCALE);
    assert_eq!(r, Point3 { x: 1, y: 2, z: 1_250_000 });
}

#[test]
fn project_divides_by_depth() {
    // 0.25 / 1.25 = 0.2 on both axes.
    let p = Point3 { x: 250_000, y: 250_000, z: 1_250_000 };
    assert_eq!(project(&p), Point2 { x: 200_000, y: 200_000 });
    // A negative quotient rounds toward zero, not downward.
    let q = Point3 { x: -250_001, y: 500_000, z: 1_250_000 };
    assert_eq!(project(&q), Point2 { x: -200_000, y: 400_000 });
}

#[test]
fn project_zero_depth_saturates() {
    let p = Point3 { x: 5, y: -5, z: 0 };
    assert_eq!(project(&p), Point2 { x: i64::MAX, y: i64::MIN });
}

#[test]
fn to_screen_maps_corners() {
    // (-1, -1) -> (0, height) and (1, 1) -> (width, 0).
    let bounds = ViewBounds { width: 200 * SCALE, height: 200 * SCALE };
    let low = to_screen(&Point2 { x: -SCALE, y: -SCALE }, &bounds);
    assert_eq!(low, Point2 { x: 0, y: 200 * SCALE });
    let high = to_screen(&Point2 { x: SCALE, y: SCALE }, &bounds);
    assert_eq!(high, Point2 { x: 200 * SCALE, y: 0 });
    let mid = to_screen(&Point2 { x: 0, y: 0 }, &bounds);
    assert_eq!(mid, Point2 { x: 100 * SCALE, y: 100 * SCALE });
}

#[test]
fn transform_vertex_runs_whole_pipeline() {
    // Unrotated corner (0.25, 0.25, 0.25), dz = 1: projected (0.2, 0.2),
    // screen (120, 80) in a 200x200 region.
    let v = Point3 { x: 250_000, y: 250_000, z: 250_000 };
    let f = RotationFlags { xz: false, yz: false, xy: false };
    let bounds = ViewBounds { width: 200 * SCALE, height: 200 * SCALE };
    let r = transform_vertex(&v, SCALE, 0, f, SCALE, &bounds);
    assert_eq!(r, Point2 { x: 120 * SCALE, y: 80 * SCALE });
}

#[test]
fn transform_vertex_degenerate_depth_saturates() {
    // dz cancels the corner's depth: the point explodes off screen
    // instead of failing, and the frame can still be produced.
    let v = Point3 { x: 250_000, y: 250_000, z: 250_000 };
    let f = RotationFlags { xz: false, yz: false, xy: false };
    let bounds = ViewBounds { width: 200 * SCALE, height: 200 * SCALE };
    let r = transform_vertex(&v, SCALE, 0, f, -250_000, &bounds);
    assert_eq!(r, Point2 { x: i64::MAX, y: i64::MIN });
}
