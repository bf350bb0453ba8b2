//! The cube model and the frame renderer: the eight vertices and six
//! faces of the wireframe cube, and the generation of one frame's draw
//! primitives (a marker per vertex, then a segment per consecutive index
//! pair of each face).

use vstd::prelude::*;
use crate::fx::SCALE;
use crate::geom::{
    pipeline_spec, transform_vertex, Point2, Point3, RotationFlags, ViewBounds, COMPOSE_LIMIT,
    OFFSET_LIMIT,
};

verus! {

/// Radius of a vertex marker, in fixed-point pixels (5.0).
pub const POINT_RADIUS: i64 = 5_000_000;

/// One draw primitive of a frame, in fixed-point screen coordinates.
/// Every primitive is drawn in the same fixed color.
#[derive(Clone, Copy, Debug, PartialEq, Eq, Structural)]
pub enum Primitive {
    Circle { center: Point2, radius: i64 },
    Line { from: Point2, to: Point2 },
}

/// The eight cube corners in object space, at 0.25 units on each axis.
pub open spec fn cube_vertices() -> Seq<Point3> {
    seq![
        Point3 { x: 250_000i64, y: 250_000i64, z: 250_000i64 },
        Point3 { x: -250_000i64, y: 250_000i64, z: 250_000i64 },
        Point3 { x: -250_000i64, y: -250_000i64, z: 250_000i64 },
        Point3 { x: 250_000i64, y: -250_000i64, z: 250_000i64 },
        Point3 { x: 250_000i64, y: 250_000i64, z: -250_000i64 },
        Point3 { x: -250_000i64, y: 250_000i64, z: -250_000i64 },
        Point3 { x: -250_000i64, y: -250_000i64, z: -250_000i64 },
        Point3 { x: 250_000i64, y: -250_000i64, z: -250_000i64 },
    ]
}

/// The six faces as vertex-index sequences: the front and back
/// quadrilaterals as 4-cycles, and the four connecting edges as 2-index
/// sequences. The asymmetry is the fixed model of the wireframe, not a
/// general mesh.
pub open spec fn cube_faces() -> Seq<Seq<usize>> {
    seq![
        seq![0usize, 1usize, 2usize, 3usize],
        seq![4usize, 5usize, 6usize, 7usize],
        seq![0usize, 4usize],
        seq![1usize, 5usize],
        seq![2usize, 6usize],
        seq![3usize, 7usize],
    ]
}

/// Number of index pairs contributed by the faces before face `k`: the
/// segments of face `k` start at this offset (after the vertex markers).
pub open spec fn pairs_before(fs: Seq<Vec<usize>>, k: int) -> int
    decreases k,
{
    if k <= 0 {
        0
    } else {
        pairs_before(fs, k - 1) + fs[k - 1]@.len()
    }
}

/// `pairs_before` only grows with `k`: each face contributes a
/// nonnegative number of pairs.
pub proof fn lemma_pairs_before_mono(fs: Seq<Vec<usize>>, a: int, b: int)
    requires
        a <= b,
    ensures
        pairs_before(fs, a) <= pairs_before(fs, b),
    decreases b - a,
{
    if a < b {
        lemma_pairs_before_mono(fs, a, b - 1);
    }
}

/// A frame of the standard cube model holds 24 primitives: 8 vertex
/// markers, then 16 segments — 4 from each quadrilateral face and 2 from
/// each of the four connector faces (one per direction of its single
/// edge).
pub proof fn lemma_standard_frame_size(c: &Cube)
    requires
        c.vs@ == cube_vertices(),
        c.fs@.len() == cube_faces().len(),
        forall|k: int| 0 <= k < c.fs@.len() ==> (#[trigger] c.fs@[k])@ == cube_faces()[k],
    ensures
        c.vs@.len() + pairs_before(c.fs@, c.fs@.len() as int) == 24,
{
    reveal_with_fuel(pairs_before, 7);
    assert(c.fs@[0]@.len() == 4);
    assert(c.fs@[1]@.len() == 4);
    assert(c.fs@[2]@.len() == 2);
    assert(c.fs@[3]@.len() == 2);
    assert(c.fs@[4]@.len() == 2);
    assert(c.fs@[5]@.len() == 2);
}

/// Whether a primitive is a vertex marker at the given screen point.
pub open spec fn circle_at(p: Primitive, at: (int, int)) -> bool {
    match p {
        Primitive::Circle { center, radius } => center@ == at && radius == POINT_RADIUS,
        _ => false,
    }
}

/// Whether a primitive is a segment between the two given screen points.
pub open spec fn line_at(p: Primitive, a: (int, int), b: (int, int)) -> bool {
    match p {
        Primitive::Line { from, to } => from@ == a && to@ == b,
        _ => false,
    }
}

/// The scene for one frame: the cube's constant model (vertices, faces,
/// depth offset) together with the pose taken from the animation state —
/// the active planes and the scaled cosine and sine of the current angle.
pub struct Cube {
    pub dz: i64,
    pub cos_a: i64,
    pub sin_a: i64,
    pub flags: RotationFlags,
    pub vs: Vec<Point3>,
    pub fs: Vec<Vec<usize>>,
}

impl Cube {
    /// Every coordinate, the trig pair and the offset are in range for
    /// the pipeline, and every face index points at a vertex.
    pub open spec fn wf(&self) -> bool {
        &&& -SCALE <= self.cos_a <= SCALE
        &&& -SCALE <= self.sin_a <= SCALE
        &&& -OFFSET_LIMIT <= self.dz <= OFFSET_LIMIT
        &&& forall|i: int|
            0 <= i < self.vs@.len() ==> {
                &&& -COMPOSE_LIMIT <= (#[trigger] self.vs@[i]).x <= COMPOSE_LIMIT
                &&& -COMPOSE_LIMIT <= self.vs@[i].y <= COMPOSE_LIMIT
                &&& -COMPOSE_LIMIT <= self.vs@[i].z <= COMPOSE_LIMIT
            }
        &&& forall|k: int, i: int|
            0 <= k < self.fs@.len() && 0 <= i < self.fs@[k]@.len() ==> (#[trigger] self.fs@[k]@[i])
                < self.vs@.len()
    }

    /// Where vertex `i` lands on screen under this scene's pose.
    pub open spec fn vertex_screen(&self, i: int, w: int, h: int) -> (int, int) {
        pipeline_spec(
            self.vs@[i]@,
            self.cos_a as int,
            self.sin_a as int,
            self.flags,
            self.dz as int,
            w,
            h,
        )
    }

    /// A scene with the standard cube model, the unit depth offset, and
    /// the given pose.
    pub fn new(cos_a: i64, sin_a: i64, flags: RotationFlags) -> (c: Cube)
        requires
            -SCALE <= cos_a <= SCALE,
            -SCALE <= sin_a <= SCALE,
        ensures
            c.wf(),
            c.dz == SCALE,
            c.cos_a == cos_a,
            c.sin_a == sin_a,
            c.flags == flags,
            c.vs@ == cube_vertices(),
            c.fs@.len() == cube_faces().len(),
            forall|k: int| 0 <= k < c.fs@.len() ==> (#[trigger] c.fs@[k])@ == cube_faces()[k],
    {
        let mut vs: Vec<Point3> = Vec::new();
        vs.push(Point3 { x: 250_000, y: 250_000, z: 250_000 });
        vs.push(Point3 { x: -250_000, y: 250_000, z: 250_000 });
        vs.push(Point3 { x: -250_000, y: -250_000, z: 250_000 });
        vs.push(Point3 { x: 250_000, y: -250_000, z: 250_000 });
        vs.push(Point3 { x: 250_000, y: 250_000, z: -250_000 });
        vs.push(Point3 { x: -250_000, y: 250_000, z: -250_000 });
        vs.push(Point3 { x: -250_000, y: -250_000, z: -250_000 });
        vs.push(Point3 { x: 250_000, y: -250_000, z: -250_000 });
        proof {
            assert(vs@ =~= cube_vertices());
        }
        let mut f0: Vec<usize> = Vec::new();
        f0.push(0);
        f0.push(1);
        f0.push(2);
        f0.push(3);
        let mut f1: Vec<usize> = Vec::new();
        f1.push(4);
        f1.push(5);
        f1.push(6);
        f1.push(7);
        let mut f2: Vec<usize> = Vec::new();
        f2.push(0);
        f2.push(4);
        let mut f3: Vec<usize> = Vec::new();
        f3.push(1);
        f3.push(5);
        let mut f4: Vec<usize> = Vec::new();
        f4.push(2);
        f4.push(6);
        let mut f5: Vec<usize> = Vec::new();
        f5.push(3);
        f5.push(7);
        proof {
            assert(f0@ =~= cube_faces()[0]);
            assert(f1@ =~= cube_faces()[1]);
            assert(f2@ =~= cube_faces()[2]);
            assert(f3@ =~= cube_faces()[3]);
            assert(f4@ =~= cube_faces()[4]);
            assert(f5@ =~= cube_faces()[5]);
        }
        let mut fs: Vec<Vec<usize>> = Vec::new();
        fs.push(f0);
        fs.push(f1);
        fs.push(f2);
        fs.push(f3);
        fs.push(f4);
        fs.push(f5);
        Cube { dz: SCALE, cos_a, sin_a, flags, vs, fs }
    }

    /// One frame of draw primitives: first a marker per vertex, in vertex
    /// order; then, face by face, a segment for every consecutive pair of
    /// that face's indices, wrapping from the last index back to the
    /// first. Order is layering only.
    #[verifier::rlimit(60)]
    pub fn draw(&self, bounds: &ViewBounds) -> (r: Vec<Primitive>)
        requires
            self.wf(),
        ensures
            r@.len() == self.vs@.len() + pairs_before(self.fs@, self.fs@.len() as int),
            forall|i: int|
                0 <= i < self.vs@.len() ==> circle_at(
                    #[trigger] r@[i],
                    self.vertex_screen(i, bounds.width as int, bounds.height as int),
                ),
            forall|k: int, i: int|
                0 <= k < self.fs@.len() && 0 <= i < self.fs@[k]@.len() ==> line_at(
                    r@[self.vs@.len() + pairs_before(self.fs@, k) + i],
                    self.vertex_screen(
                        (#[trigger] self.fs@[k]@[i]) as int,
                        bounds.width as int,
                        bounds.height as int,
                    ),
                    self.vertex_screen(
                        self.fs@[k]@[(i + 1) % (self.fs@[k]@.len() as int)] as int,
                        bounds.width as int,
                        bounds.height as int,
                    ),
                ),
    {
        let ghost w = bounds.width as int;
        let ghost h = bounds.height as int;
        let mut out: Vec<Primitive> = Vec::new();
        let n = self.vs.len();
        let mut vi: usize = 0;
        while vi < n
            invariant
                self.wf(),
                n == self.vs@.len(),
                vi <= n,
                out@.len() == vi,
                w == bounds.width as int,
                h == bounds.height as int,
                forall|i: int|
                    0 <= i < vi ==> circle_at(#[trigger] out@[i], self.vertex_screen(i, w, h)),
            decreases n - vi,
        {
            let center = transform_vertex(
                &self.vs[vi],
                self.cos_a,
                self.sin_a,
                self.flags,
                self.dz,
                bounds,
            );
            out.push(Primitive::Circle { center, radius: POINT_RADIUS });
            vi = vi + 1;
        }
        let mut k: usize = 0;
        while k < self.fs.len()
            invariant
                self.wf(),
                n == self.vs@.len(),
                k <= self.fs@.len(),
                out@.len() == n + pairs_before(self.fs@, k as int),
                w == bounds.width as int,
                h == bounds.height as int,
                forall|i: int|
                    0 <= i < n ==> circle_at(#[trigger] out@[i], self.vertex_screen(i, w, h)),
                forall|k2: int, i: int|
                    0 <= k2 < k && 0 <= i < self.fs@[k2]@.len() ==> line_at(
                        out@[n + pairs_before(self.fs@, k2) + i],
                        self.vertex_screen((#[trigger] self.fs@[k2]@[i]) as int, w, h),
                        self.vertex_screen(
                            self.fs@[k2]@[(i + 1) % (self.fs@[k2]@.len() as int)] as int,
                            w,
                            h,
                        ),
                    ),
            decreases self.fs@.len() - k,
        {
            let flen = self.fs[k].len();
            let mut i: usize = 0;
            while i < flen
                invariant
                    self.wf(),
                    n == self.vs@.len(),
                    k < self.fs@.len(),
                    flen == self.fs@[k as int]@.len(),
                    i <= flen,
                    out@.len() == n + pairs_before(self.fs@, k as int) + i,
                    w == bounds.width as int,
                    h == bounds.height as int,
                    forall|i2: int|
                        0 <= i2 < n ==> circle_at(#[trigger] out@[i2], self.vertex_screen(i2, w, h)),
                    forall|k2: int, i2: int|
                        0 <= k2 < k && 0 <= i2 < self.fs@[k2]@.len() ==> line_at(
                            out@[n + pairs_before(self.fs@, k2) + i2],
                            self.vertex_screen((#[trigger] self.fs@[k2]@[i2]) as int, w, h),
                            self.vertex_screen(
                                self.fs@[k2]@[(i2 + 1) % (self.fs@[k2]@.len() as int)] as int,
                                w,
                                h,
                            ),
                        ),
                    forall|j: int|
                        0 <= j < i ==> line_at(
                            out@[n + pairs_before(self.fs@, k as int) + j],
                            self.vertex_screen((#[trigger] self.fs@[k as int]@[j]) as int, w, h),
                            self.vertex_screen(
                                self.fs@[k as int]@[(j + 1) % (flen as int)] as int,
                                w,
                                h,
                            ),
                        ),
                decreases flen - i,
            {
                let a_idx = self.fs[k][i];
                let b_idx = self.fs[k][(i + 1) % flen];
                let pa = transform_vertex(
                    &self.vs[a_idx],
                    self.cos_a,
                    self.sin_a,
                    self.flags,
                    self.dz,
                    bounds,
                );
                let pb = transform_vertex(
                    &self.vs[b_idx],
                    self.cos_a,
                    self.sin_a,
                    self.flags,
                    self.dz,
                    bounds,
                );
                out.push(Primitive::Line { from: pa, to: pb });
                proof {
                    lemma_pairs_before_mono(self.fs@, 0, k as int);
                    assert forall|k2: int| 0 <= k2 < k implies pairs_before(self.fs@, k2)
                        + self.fs@[k2]@.len() <= pairs_before(self.fs@, k as int) && 0
                        <= pairs_before(self.fs@, k2) by {
                        lemma_pairs_before_mono(self.fs@, k2 + 1, k as int);
                        lemma_pairs_before_mono(self.fs@, 0, k2);
                    }
                }
                i = i + 1;
            }
            proof {
                assert(pairs_before(self.fs@, k as int + 1) == pairs_before(self.fs@, k as int)
                    + self.fs@[k as int]@.len());
            }
            k = k + 1;
        }
        out
    }
}

} // verus!
