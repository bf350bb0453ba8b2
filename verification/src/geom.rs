//! The 3D-to-2D pipeline: planar rotations, their fixed-order composition,
//! translation along z, perspective projection, and the mapping from
//! normalized coordinates to screen pixels.
//!
//! All coordinates are fixed-point (`fx::SCALE` units per real unit). A
//! rotation takes the cosine and the sine of its angle as fixed-point
//! values; the caller computes them from the angle.

use vstd::prelude::*;
use vstd::math::abs;
use crate::fx::{
    clip_i128_to_i64, clip_i64, div_i128, lemma_mul_in_range, lemma_trunc_div_bounded, trunc_div,
    SCALE,
};

verus! {

/// Largest coordinate magnitude a single rotation accepts.
pub const ROTATE_LIMIT: i64 = 4_000_000_000_000_000_000;

/// Largest coordinate magnitude `compose_rotation` accepts; three chained
/// rotations can grow a coordinate by at most a factor of eight, which
/// stays under `ROTATE_LIMIT`.
pub const COMPOSE_LIMIT: i64 = 500_000_000_000_000_000;

/// Largest translation offset `translate_z` is used with after a
/// composed rotation: the translated depth still fits in an `i64`.
pub const OFFSET_LIMIT: i64 = 4_000_000_000_000_000_000;

/// A point in 3D space, in fixed-point coordinates.
#[derive(Clone, Copy, Debug, PartialEq, Eq, Structural)]
pub struct Point3 {
    pub x: i64,
    pub y: i64,
    pub z: i64,
}

/// A point in 2D space (projected or screen coordinates), fixed-point.
#[derive(Clone, Copy, Debug, PartialEq, Eq, Structural)]
pub struct Point2 {
    pub x: i64,
    pub y: i64,
}

/// Which rotation planes are active.
#[derive(Clone, Copy, Debug, PartialEq, Eq, Structural)]
pub struct RotationFlags {
    pub xz: bool,
    pub yz: bool,
    pub xy: bool,
}

/// The pixel region rendered into, as fixed-point width and height.
#[derive(Clone, Copy, Debug, PartialEq, Eq, Structural)]
pub struct ViewBounds {
    pub width: i64,
    pub height: i64,
}

impl View for Point3 {
    type V = (int, int, int);

    open spec fn view(&self) -> (int, int, int) {
        (self.x as int, self.y as int, self.z as int)
    }
}

impl View for Point2 {
    type V = (int, int);

    open spec fn view(&self) -> (int, int) {
        (self.x as int, self.y as int)
    }
}

/// Numerator of the first coordinate of a planar rotation of `(u, v)` by
/// the angle whose scaled cosine and sine are `c` and `s`.
pub open spec fn rot_num_u(u: int, v: int, c: int, s: int) -> int {
    c * u - s * v
}

/// Numerator of the second coordinate of the same planar rotation.
pub open spec fn rot_num_v(u: int, v: int, c: int, s: int) -> int {
    s * u + c * v
}

/// First coordinate of the fixed-point planar rotation: the exact
/// numerator scaled back down, rounding toward zero.
pub open spec fn rot_u(u: int, v: int, c: int, s: int) -> int {
    trunc_div(rot_num_u(u, v, c, s), SCALE as int)
}

/// Second coordinate of the fixed-point planar rotation.
pub open spec fn rot_v(u: int, v: int, c: int, s: int) -> int {
    trunc_div(rot_num_v(u, v, c, s), SCALE as int)
}

pub open spec fn rotate_xz_spec(p: (int, int, int), c: int, s: int) -> (int, int, int) {
    (rot_u(p.0, p.2, c, s), p.1, rot_v(p.0, p.2, c, s))
}

pub open spec fn rotate_yz_spec(p: (int, int, int), c: int, s: int) -> (int, int, int) {
    (p.0, rot_u(p.1, p.2, c, s), rot_v(p.1, p.2, c, s))
}

pub open spec fn rotate_xy_spec(p: (int, int, int), c: int, s: int) -> (int, int, int) {
    (rot_u(p.0, p.1, c, s), rot_v(p.0, p.1, c, s), p.2)
}

/// The fixed composition order: the xz rotation, then yz, then xy, each
/// applied only when its flag is set.
pub open spec fn compose_spec(p: (int, int, int), c: int, s: int, f: RotationFlags) -> (
    int,
    int,
    int,
) {
    let a = if f.xz {
        rotate_xz_spec(p, c, s)
    } else {
        p
    };
    let b = if f.yz {
        rotate_yz_spec(a, c, s)
    } else {
        a
    };
    if f.xy {
        rotate_xy_spec(b, c, s)
    } else {
        b
    }
}

/// One coordinate of the perspective division `x / z`, scaled. A zero
/// depth or an out-of-range quotient saturates to an extreme coordinate;
/// the frame is still produced, as an off-screen artifact.
pub open spec fn project_coord(x: int, z: int) -> int {
    if z == 0 {
        if x >= 0 {
            i64::MAX as int
        } else {
            i64::MIN as int
        }
    } else {
        clip_i64(trunc_div(x * (SCALE as int), z))
    }
}

pub open spec fn project_spec(p: (int, int, int)) -> (int, int) {
    (project_coord(p.0, p.2), project_coord(p.1, p.2))
}

/// Horizontal screen mapping: `((x + 1) / 2) * width`, in fixed point,
/// squeezed into the `i64` range.
pub open spec fn screen_x(x: int, w: int) -> int {
    clip_i64(trunc_div((x + SCALE) * w, 2 * (SCALE as int)))
}

/// Vertical screen mapping with the flip: `(1 - (y + 1) / 2) * height`,
/// which equals `((1 - y) / 2) * height`.
pub open spec fn screen_y(y: int, h: int) -> int {
    clip_i64(trunc_div((SCALE - y) * h, 2 * (SCALE as int)))
}

pub open spec fn to_screen_spec(p: (int, int), w: int, h: int) -> (int, int) {
    (screen_x(p.0, w), screen_y(p.1, h))
}

/// The full per-vertex pipeline: composed rotation, translation along z,
/// perspective projection, screen mapping. Opaque so that callers handle
/// a screen point as one value; `transform_vertex` pins it down.
#[verifier::opaque]
pub open spec fn pipeline_spec(
    v: (int, int, int),
    c: int,
    s: int,
    f: RotationFlags,
    dz: int,
    w: int,
    h: int,
) -> (int, int) {
    let r = compose_spec(v, c, s, f);
    let t = (r.0, r.1, r.2 + dz);
    to_screen_spec(project_spec(t), w, h)
}

/// Rotation in the xz plane, holding y fixed: the standard 2D rotation of
/// `(x, z)` by the angle whose scaled cosine and sine are `c` and `s`.
pub fn rotate_xz(p: &Point3, c: i64, s: i64) -> (r: Point3)
    requires
        -ROTATE_LIMIT <= p.x <= ROTATE_LIMIT,
        -ROTATE_LIMIT <= p.z <= ROTATE_LIMIT,
        -SCALE <= c <= SCALE,
        -SCALE <= s <= SCALE,
    ensures
        r@ == rotate_xz_spec(p@, c as int, s as int),
        r.y == p.y,
        abs(r.x as int) <= abs(p.x as int) + abs(p.z as int),
        abs(r.z as int) <= abs(p.x as int) + abs(p.z as int),
{
    let (nu, nv) = rotate_pair(p.x, p.z, c, s);
    Point3 { x: nu, y: p.y, z: nv }
}

/// Rotation in the yz plane, holding x fixed.
pub fn rotate_yz(p: &Point3, c: i64, s: i64) -> (r: Point3)
    requires
        -ROTATE_LIMIT <= p.y <= ROTATE_LIMIT,
        -ROTATE_LIMIT <= p.z <= ROTATE_LIMIT,
        -SCALE <= c <= SCALE,
        -SCALE <= s <= SCALE,
    ensures
        r@ == rotate_yz_spec(p@, c as int, s as int),
        r.x == p.x,
        abs(r.y as int) <= abs(p.y as int) + abs(p.z as int),
        abs(r.z as int) <= abs(p.y as int) + abs(p.z as int),
{
    let (nu, nv) = rotate_pair(p.y, p.z, c, s);
    Point3 { x: p.x, y: nu, z: nv }
}

/// Rotation in the xy plane, holding z fixed.
pub fn rotate_xy(p: &Point3, c: i64, s: i64) -> (r: Point3)
    requires
        -ROTATE_LIMIT <= p.x <= ROTATE_LIMIT,
        -ROTATE_LIMIT <= p.y <= ROTATE_LIMIT,
        -SCALE <= c <= SCALE,
        -SCALE <= s <= SCALE,
    ensures
        r@ == rotate_xy_spec(p@, c as int, s as int),
        r.z == p.z,
        abs(r.x as int) <= abs(p.x as int) + abs(p.y as int),
        abs(r.y as int) <= abs(p.x as int) + abs(p.y as int),
{
    let (nu, nv) = rotate_pair(p.x, p.y, c, s);
    Point3 { x: nu, y: nv, z: p.z }
}

/// The shared planar rotation of a coordinate pair.
fn rotate_pair(u: i64, v: i64, c: i64, s: i64) -> (r: (i64, i64))
    requires
        -ROTATE_LIMIT <= u <= ROTATE_LIMIT,
        -ROTATE_LIMIT <= v <= ROTATE_LIMIT,
        -SCALE <= c <= SCALE,
        -SCALE <= s <= SCALE,
    ensures
        r.0 == rot_u(u as int, v as int, c as int, s as int),
        r.1 == rot_v(u as int, v as int, c as int, s as int),
        abs(r.0 as int) <= abs(u as int) + abs(v as int),
        abs(r.1 as int) <= abs(u as int) + abs(v as int),
{
    proof {
        let au = abs(u as int) as int;
        let av = abs(v as int) as int;
        lemma_mul_in_range(c as int, u as int, SCALE as int, au);
        lemma_mul_in_range(s as int, v as int, SCALE as int, av);
        lemma_mul_in_range(s as int, u as int, SCALE as int, au);
        lemma_mul_in_range(c as int, v as int, SCALE as int, av);
        assert((au + av) * (SCALE as int) == (SCALE as int) * au + (SCALE as int) * av)
            by (nonlinear_arith);
    }
    let num_u: i128 = (c as i128) * (u as i128) - (s as i128) * (v as i128);
    let num_v: i128 = (s as i128) * (u as i128) + (c as i128) * (v as i128);
    proof {
        let au = abs(u as int) as int;
        let av = abs(v as int) as int;
        lemma_trunc_div_bounded(num_u as int, SCALE as int, au + av);
        lemma_trunc_div_bounded(num_v as int, SCALE as int, au + av);
    }
    let qu: i128 = div_i128(num_u, SCALE as i128);
    let qv: i128 = div_i128(num_v, SCALE as i128);
    (qu as i64, qv as i64)
}

/// The composed rotation: xz, then yz, then xy, in that fixed order, each
/// skipped when its flag is off.
pub fn compose_rotation(p: &Point3, c: i64, s: i64, f: RotationFlags) -> (r: Point3)
    requires
        -COMPOSE_LIMIT <= p.x <= COMPOSE_LIMIT,
        -COMPOSE_LIMIT <= p.y <= COMPOSE_LIMIT,
        -COMPOSE_LIMIT <= p.z <= COMPOSE_LIMIT,
        -SCALE <= c <= SCALE,
        -SCALE <= s <= SCALE,
    ensures
        r@ == compose_spec(p@, c as int, s as int, f),
        -ROTATE_LIMIT <= r.x <= ROTATE_LIMIT,
        -ROTATE_LIMIT <= r.y <= ROTATE_LIMIT,
        -ROTATE_LIMIT <= r.z <= ROTATE_LIMIT,
{
    let a = if f.xz {
        rotate_xz(p, c, s)
    } else {
        *p
    };
    let b = if f.yz {
        rotate_yz(&a, c, s)
    } else {
        a
    };
    if f.xy {
        rotate_xy(&b, c, s)
    } else {
        b
    }
}

/// Translation along the z axis only.
pub fn translate_z(p: &Point3, dz: i64) -> (r: Point3)
    requires
        i64::MIN <= p.z + dz <= i64::MAX,
    ensures
        r@ == (p@.0, p@.1, p.z + dz),
{
    Point3 { x: p.x, y: p.y, z: p.z + dz }
}

/// Perspective projection: divides x and y by z and discards z. A zero
/// depth saturates to an extreme coordinate instead of failing; the
/// caller still gets a frame, with the point far off screen.
pub fn project(p: &Point3) -> (r: Point2)
    ensures
        r@ == project_spec(p@),
{
    let x = project_one(p.x, p.z);
    let y = project_one(p.y, p.z);
    Point2 { x, y }
}

fn project_one(x: i64, z: i64) -> (r: i64)
    ensures
        r as int == project_coord(x as int, z as int),
{
    if z == 0 {
        if x >= 0 {
            i64::MAX
        } else {
            i64::MIN
        }
    } else {
        proof {
            lemma_mul_in_range(x as int, SCALE as int, i64::MAX as int + 1, SCALE as int);
        }
        let num: i128 = (x as i128) * (SCALE as i128);
        let q: i128 = div_i128(num, z as i128);
        clip_i128_to_i64(q)
    }
}

/// Map a point of the normalized `[-1, 1]` square into the pixel region:
/// `x` goes to `((x + 1) / 2) * width`, and `y`, flipped because screen
/// space grows downward, to `(1 - (y + 1) / 2) * height`. Out-of-square
/// inputs map past the region; out-of-range results saturate.
pub fn to_screen(p: &Point2, bounds: &ViewBounds) -> (r: Point2)
    ensures
        r@ == to_screen_spec(p@, bounds.width as int, bounds.height as int),
{
    proof {
        lemma_mul_in_range(
            p.x as int + SCALE as int,
            bounds.width as int,
            i64::MAX as int + 1 + SCALE as int,
            i64::MAX as int + 1,
        );
        lemma_mul_in_range(
            SCALE as int - p.y as int,
            bounds.height as int,
            i64::MAX as int + 1 + SCALE as int,
            i64::MAX as int + 1,
        );
    }
    let nx: i128 = ((p.x as i128) + (SCALE as i128)) * (bounds.width as i128);
    let ny: i128 = ((SCALE as i128) - (p.y as i128)) * (bounds.height as i128);
    let qx: i128 = div_i128(nx, 2 * (SCALE as i128));
    let qy: i128 = div_i128(ny, 2 * (SCALE as i128));
    Point2 { x: clip_i128_to_i64(qx), y: clip_i128_to_i64(qy) }
}

/// The full per-vertex pipeline applied identically to every vertex and
/// edge endpoint: composed rotation, translation along z, projection,
/// screen mapping.
pub fn transform_vertex(
    v: &Point3,
    c: i64,
    s: i64,
    f: RotationFlags,
    dz: i64,
    bounds: &ViewBounds,
) -> (r: Point2)
    requires
        -COMPOSE_LIMIT <= v.x <= COMPOSE_LIMIT,
        -COMPOSE_LIMIT <= v.y <= COMPOSE_LIMIT,
        -COMPOSE_LIMIT <= v.z <= COMPOSE_LIMIT,
        -SCALE <= c <= SCALE,
        -SCALE <= s <= SCALE,
        -OFFSET_LIMIT <= dz <= OFFSET_LIMIT,
    ensures
        r@ == pipeline_spec(
            v@,
            c as int,
            s as int,
            f,
            dz as int,
            bounds.width as int,
            bounds.height as int,
        ),
{
    proof {
        reveal(pipeline_spec);
    }
    let rotated = compose_rotation(v, c, s, f);
    let translated = translate_z(&rotated, dz);
    let projected = project(&translated);
    to_screen(&projected, bounds)
}

/// A planar rotation whose scaled cosine and sine lie exactly on the
/// scaled unit circle preserves the squared distance from the rotation
/// axis, at full precision: the exact numerators of the rotated pair
/// satisfy the same `u*u + v*v` sum, scaled. Scaling back down (the
/// `rot_u`/`rot_v` truncation) is the fixed-point analogue of the
/// floating-point tolerance.
pub proof fn lemma_rotation_preserves_radius(u: int, v: int, c: int, s: int)
    requires
        c * c + s * s == (SCALE as int) * (SCALE as int),
    ensures
        rot_num_u(u, v, c, s) * rot_num_u(u, v, c, s) + rot_num_v(u, v, c, s) * rot_num_v(
            u,
            v,
            c,
            s,
        ) == (SCALE as int) * (SCALE as int) * (u * u + v * v),
{
    assert(((c * u) - (s * v)) * ((c * u) - (s * v)) == ((c * u) * (c * u)) - 2 * ((c * u) * (s
        * v)) + ((s * v) * (s * v))) by (nonlinear_arith);
    assert(((s * u) + (c * v)) * ((s * u) + (c * v)) == ((s * u) * (s * u)) + 2 * ((s * u) * (c
        * v)) + ((c * v) * (c * v))) by (nonlinear_arith);
    assert((c * u) * (s * v) == (s * u) * (c * v)) by (nonlinear_arith);
    assert((c * u) * (c * u) == (c * c) * (u * u)) by (nonlinear_arith);
    assert((s * v) * (s * v) == (s * s) * (v * v)) by (nonlinear_arith);
    assert((s * u) * (s * u) == (s * s) * (u * u)) by (nonlinear_arith);
    assert((c * v) * (c * v) == (c * c) * (v * v)) by (nonlinear_arith);
    assert((c * c) * (u * u) + (s * s) * (u * u) == (c * c + s * s) * (u * u))
        by (nonlinear_arith);
    assert((c * c) * (v * v) + (s * s) * (v * v) == (c * c + s * s) * (v * v))
        by (nonlinear_arith);
    assert((c * c + s * s) * (u * u) + (c * c + s * s) * (v * v) == (c * c + s * s) * ((u * u) + (v
        * v))) by (nonlinear_arith);
    assert((c * c + s * s) * ((u * u) + (v * v)) == ((SCALE as int) * (SCALE as int)) * ((u * u) + (
    v * v)));
}

/// With every flag off, the composed rotation returns its input
/// unchanged.
pub proof fn lemma_compose_all_off(p: (int, int, int), c: int, s: int)
    ensures
        compose_spec(p, c, s, RotationFlags { xz: false, yz: false, xy: false }) == p,
{
}

/// With only the xz flag on, the composed rotation is exactly the xz
/// rotation.
pub proof fn lemma_compose_only_xz(p: (int, int, int), c: int, s: int)
    ensures
        compose_spec(p, c, s, RotationFlags { xz: true, yz: false, xy: false })
            == rotate_xz_spec(p, c, s),
{
}

/// The screen mapping sends the corners of the normalized square to the
/// corners of the pixel region: `(-1, -1)` to `(0, height)` and `(1, 1)`
/// to `(width, 0)`, for any positive bounds.
pub proof fn lemma_screen_corners(w: i64, h: i64)
    requires
        0 < w,
        0 < h,
    ensures
        to_screen_spec((-SCALE as int, -SCALE as int), w as int, h as int) == (0int, h as int),
        to_screen_spec((SCALE as int, SCALE as int), w as int, h as int) == (w as int, 0int),
{
    let sc = SCALE as int;
    assert((-sc + sc) * (w as int) == 0) by (nonlinear_arith);
    assert((sc - sc) * (h as int) == 0) by (nonlinear_arith);
    assert(trunc_div(0, 2 * sc) == 0);
    assert((sc + sc) * (w as int) == (w as int) * (2 * sc)) by (nonlinear_arith);
    assert((sc - (-sc)) * (h as int) == (h as int) * (2 * sc)) by (nonlinear_arith);
    lemma_div_by_multiple_pub(w as int, 2 * sc);
    lemma_div_by_multiple_pub(h as int, 2 * sc);
}

proof fn lemma_div_by_multiple_pub(b: int, d: int)
    requires
        0 <= b,
        0 < d,
    ensures
        trunc_div(b * d, d) == b,
{
    vstd::arithmetic::div_mod::lemma_div_by_multiple(b, d);
    vstd::arithmetic::mul::lemma_mul_nonnegative(b, d);
}

} // verus!
