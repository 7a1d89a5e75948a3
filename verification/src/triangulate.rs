//! Polygon triangulator.
//!
//! An n-gon's corner list becomes a list of triangles covering the face with
//! the winding preserved.  A triangle passes through unchanged.  A quad is
//! split along the diagonal that two cross-product concavity indicators pick,
//! which avoids inverted triangles on concave quads.  A larger polygon is
//! projected to 2D by dropping the axis of smallest extent; if at most one
//! corner is concave (or at most one convex), the polygon is fan-triangulated
//! from the distinguishing corner, otherwise it is rejected — ear clipping
//! for multiply-concave polygons is deliberately not implemented.

use vstd::prelude::*;

use crate::error::FbxError;
use crate::geometry::{PolygonVertices, Triangle};

verus! {

/// Componentwise difference of two 3D points.
pub open spec fn sub3(p: (int, int, int), q: (int, int, int)) -> (int, int, int) {
    (p.0 - q.0, p.1 - q.1, p.2 - q.2)
}

/// Cross product of two 3D vectors.
pub open spec fn cross3(u: (int, int, int), v: (int, int, int)) -> (int, int, int) {
    (u.1 * v.2 - u.2 * v.1, u.2 * v.0 - u.0 * v.2, u.0 * v.1 - u.1 * v.0)
}

/// Dot product of two 3D vectors.
pub open spec fn dot3(u: (int, int, int), v: (int, int, int)) -> int {
    u.0 * v.0 + u.1 * v.1 + u.2 * v.2
}

/// Perpendicular dot product of two 2D vectors: the sign tells on which side
/// of `u` the vector `v` lies.
pub open spec fn perp_dot(u: (int, int), v: (int, int)) -> int {
    u.0 * v.1 - u.1 * v.0
}

/// The quad split test: normals at the two corners of the first diagonal,
/// computed from the adjacent edges; a non-negative dot product means both
/// diagonal corners are concave and the cut runs from corner 0 to corner 2.
pub open spec fn quad_keeps_first_diagonal(
    p0: (int, int, int),
    p1: (int, int, int),
    p2: (int, int, int),
    p3: (int, int, int),
) -> bool {
    dot3(cross3(sub3(p0, p1), sub3(p1, p2)), cross3(sub3(p2, p3), sub3(p3, p0))) >= 0
}

/// A coordinate axis of 3D space.
#[derive(Clone, Copy, Debug, PartialEq, Eq, Structural)]
pub enum Axis {
    X,
    Y,
    Z,
}

/// The axis along which the bounding box of the polygon is thinnest; the
/// projection drops it to minimize distortion.
pub open spec fn smallest_direction_spec(w: (int, int, int)) -> Axis {
    if w.0 < w.1 && w.2 < w.0 {
        Axis::Z
    } else if w.0 < w.1 {
        Axis::X
    } else if w.2 < w.1 {
        Axis::Z
    } else {
        Axis::Y
    }
}

/// Drops one axis of a 3D point.
pub open spec fn project(p: (int, int, int), axis: Axis) -> (int, int) {
    match axis {
        Axis::X => (p.1, p.2),
        Axis::Y => (p.0, p.2),
        Axis::Z => (p.0, p.1),
    }
}

/// Smallest element of a non-empty sequence.
pub open spec fn seq_min(s: Seq<int>) -> int
    recommends
        s.len() > 0,
    decreases s.len(),
{
    if s.len() <= 1 {
        s[0]
    } else {
        let m = seq_min(s.drop_last());
        if s.last() < m {
            s.last()
        } else {
            m
        }
    }
}

/// Largest element of a non-empty sequence.
pub open spec fn seq_max(s: Seq<int>) -> int
    recommends
        s.len() > 0,
    decreases s.len(),
{
    if s.len() <= 1 {
        s[0]
    } else {
        let m = seq_max(s.drop_last());
        if s.last() > m {
            s.last()
        } else {
            m
        }
    }
}

/// The positions behind a corner list.
pub open spec fn positions_of(pv: PolygonVertices, idx: Seq<u32>) -> Seq<(int, int, int)> {
    Seq::new(idx.len(), |i: int| pv.position_of(idx[i] as int))
}

/// One coordinate of every position.
pub open spec fn coords_of(ps: Seq<(int, int, int)>, axis: Axis) -> Seq<int> {
    match axis {
        Axis::X => Seq::new(ps.len(), |i: int| ps[i].0),
        Axis::Y => Seq::new(ps.len(), |i: int| ps[i].1),
        Axis::Z => Seq::new(ps.len(), |i: int| ps[i].2),
    }
}

/// Extent of the positions along one axis.
pub open spec fn extent_of(ps: Seq<(int, int, int)>, axis: Axis) -> int {
    seq_max(coords_of(ps, axis)) - seq_min(coords_of(ps, axis))
}

/// The projection axis chosen for a polygon's positions.
pub open spec fn axis_of(ps: Seq<(int, int, int)>) -> Axis {
    smallest_direction_spec((extent_of(ps, Axis::X), extent_of(ps, Axis::Y), extent_of(ps, Axis::Z)))
}

/// The 2D projections of the positions along the chosen axis.
pub open spec fn projected_of(ps: Seq<(int, int, int)>) -> Seq<(int, int)> {
    Seq::new(ps.len(), |i: int| project(ps[i], axis_of(ps)))
}

/// Cyclic index into a sequence of length `n`, for `0 <= j < 2n`.
pub open spec fn cyc(n: int, j: int) -> int {
    if j < n {
        j
    } else {
        j - n
    }
}

/// The convexity flag of corner `i` in the 2D projection `q`: the sign of
/// the perpendicular dot product of the two adjacent edges.
pub open spec fn flag_at(q: Seq<(int, int)>, i: int) -> bool {
    let n = q.len() as int;
    let prev = if i == 0 {
        n - 1
    } else {
        i - 1
    };
    let next = if i == n - 1 {
        0
    } else {
        i + 1
    };
    let u = (q[prev].0 - q[i].0, q[prev].1 - q[i].1);
    let v = (q[i].0 - q[next].0, q[i].1 - q[next].1);
    perp_dot(u, v) > 0
}

/// All convexity flags of a polygon's positions.
pub open spec fn flags_of(ps: Seq<(int, int, int)>) -> Seq<bool> {
    Seq::new(ps.len(), |i: int| flag_at(projected_of(ps), i))
}

/// How many flags are set.
pub open spec fn count_true(s: Seq<bool>) -> int
    decreases s.len(),
{
    if s.len() == 0 {
        0
    } else {
        count_true(s.drop_last()) + if s.last() {
            1int
        } else {
            0int
        }
    }
}

/// Index of the first element equal to `b`, or the length when absent.
pub open spec fn find_first(s: Seq<bool>, b: bool) -> int
    decreases s.len(),
{
    if s.len() == 0 {
        0
    } else if s[0] == b {
        0
    } else {
        1 + find_first(s.drop_first(), b)
    }
}

/// The fan centre: the first corner whose flag is in the minority, corner 0
/// when every flag agrees.
pub open spec fn pivot_of(flags: Seq<bool>, minor: bool) -> int {
    let f = find_first(flags, minor);
    if f < flags.len() {
        f
    } else {
        0
    }
}

/// The fan triangulation of a corner list around centre `c`.
pub open spec fn fan_from(idx: Seq<u32>, c: int) -> Seq<Triangle> {
    let n = idx.len() as int;
    Seq::new(
        (idx.len() - 2) as nat,
        |t: int|
            Triangle {
                a: idx[c],
                b: idx[cyc(n, c + 1 + t)],
                c: idx[cyc(n, c + 2 + t)],
            },
    )
}

/// What the triangulator produces for one polygon: the triangle list on
/// success, the reason on failure.
pub open spec fn triangulate_spec(pv: PolygonVertices, idx: Seq<u32>) -> Result<
    Seq<Triangle>,
    FbxError,
> {
    let n = idx.len() as int;
    if n < 3 {
        Err(FbxError::InvalidPolygon)
    } else if n == 3 {
        Ok(seq![Triangle { a: idx[0], b: idx[1], c: idx[2] }])
    } else if n == 4 {
        let ps = positions_of(pv, idx);
        if quad_keeps_first_diagonal(ps[0], ps[1], ps[2], ps[3]) {
            Ok(
                seq![
                    Triangle { a: idx[0], b: idx[1], c: idx[2] },
                    Triangle { a: idx[2], b: idx[3], c: idx[0] },
                ],
            )
        } else {
            Ok(
                seq![
                    Triangle { a: idx[0], b: idx[1], c: idx[3] },
                    Triangle { a: idx[3], b: idx[1], c: idx[2] },
                ],
            )
        }
    } else {
        let flags = flags_of(positions_of(pv, idx));
        let cnt = count_true(flags);
        if cnt <= 1 || cnt >= n - 1 {
            Ok(fan_from(idx, pivot_of(flags, cnt <= 1)))
        } else {
            Err(FbxError::UnsupportedPolygon)
        }
    }
}

/// Product of two integers of magnitude at most `2^30`.
fn mul_narrow(a: i128, b: i128) -> (r: i128)
    requires
        -0x4000_0000 <= a <= 0x4000_0000,
        -0x4000_0000 <= b <= 0x4000_0000,
    ensures
        r == a * b,
        -0x1000_0000_0000_0000 <= r <= 0x1000_0000_0000_0000,
{
    proof {
        assert(-0x1000_0000_0000_0000 <= a * b <= 0x1000_0000_0000_0000) by (nonlinear_arith)
            requires
                -0x4000_0000 <= a <= 0x4000_0000,
                -0x4000_0000 <= b <= 0x4000_0000,
        ;
    }
    a * b
}

/// Product of two integers of magnitude at most `2^62`.
fn mul_wide(a: i128, b: i128) -> (r: i128)
    requires
        -0x4000_0000_0000_0000 <= a <= 0x4000_0000_0000_0000,
        -0x4000_0000_0000_0000 <= b <= 0x4000_0000_0000_0000,
    ensures
        r == a * b,
        -0x1000_0000_0000_0000_0000_0000_0000_0000 <= r <= 0x1000_0000_0000_0000_0000_0000_0000_0000,
{
    proof {
        assert(-0x1000_0000_0000_0000_0000_0000_0000_0000
            <= a * b <= 0x1000_0000_0000_0000_0000_0000_0000_0000) by (nonlinear_arith)
            requires
                -0x4000_0000_0000_0000 <= a <= 0x4000_0000_0000_0000,
                -0x4000_0000_0000_0000 <= b <= 0x4000_0000_0000_0000,
        ;
    }
    a * b
}

/// The quad split decision on four bounded corner positions.
fn quad_choice(p0: [i64; 3], p1: [i64; 3], p2: [i64; 3], p3: [i64; 3]) -> (b: bool)
    requires
        forall|j: int| 0 <= j < 3 ==> -0x2000_0000 <= #[trigger] p0[j] <= 0x2000_0000,
        forall|j: int| 0 <= j < 3 ==> -0x2000_0000 <= #[trigger] p1[j] <= 0x2000_0000,
        forall|j: int| 0 <= j < 3 ==> -0x2000_0000 <= #[trigger] p2[j] <= 0x2000_0000,
        forall|j: int| 0 <= j < 3 ==> -0x2000_0000 <= #[trigger] p3[j] <= 0x2000_0000,
    ensures
        b == quad_keeps_first_diagonal(
            (p0[0] as int, p0[1] as int, p0[2] as int),
            (p1[0] as int, p1[1] as int, p1[2] as int),
            (p2[0] as int, p2[1] as int, p2[2] as int),
            (p3[0] as int, p3[1] as int, p3[2] as int),
        ),
{
    let ax = p0[0] as i128 - p1[0] as i128;
    let ay = p0[1] as i128 - p1[1] as i128;
    let az = p0[2] as i128 - p1[2] as i128;
    let bx = p1[0] as i128 - p2[0] as i128;
    let by = p1[1] as i128 - p2[1] as i128;
    let bz = p1[2] as i128 - p2[2] as i128;
    let cx = p2[0] as i128 - p3[0] as i128;
    let cy = p2[1] as i128 - p3[1] as i128;
    let cz = p2[2] as i128 - p3[2] as i128;
    let dx = p3[0] as i128 - p0[0] as i128;
    let dy = p3[1] as i128 - p0[1] as i128;
    let dz = p3[2] as i128 - p0[2] as i128;
    let n1x = mul_narrow(ay, bz) - mul_narrow(az, by);
    let n1y = mul_narrow(az, bx) - mul_narrow(ax, bz);
    let n1z = mul_narrow(ax, by) - mul_narrow(ay, bx);
    let n3x = mul_narrow(cy, dz) - mul_narrow(cz, dy);
    let n3y = mul_narrow(cz, dx) - mul_narrow(cx, dz);
    let n3z = mul_narrow(cx, dy) - mul_narrow(cy, dx);
    let d = mul_wide(n1x, n3x) + mul_wide(n1y, n3y) + mul_wide(n1z, n3z);
    d >= 0
}

/// The extremes of a bounded sequence stay within its bounds.
proof fn lemma_minmax_bounds(s: Seq<int>, lo: int, hi: int)
    requires
        s.len() > 0,
        forall|j: int| 0 <= j < s.len() ==> lo <= #[trigger] s[j] <= hi,
    ensures
        lo <= seq_min(s) <= hi,
        lo <= seq_max(s) <= hi,
    decreases s.len(),
{
    if s.len() > 1 {
        lemma_minmax_bounds(s.drop_last(), lo, hi);
    }
}

/// `count_true` of a prefix grows by the newly appended flag.
proof fn lemma_count_take_step(s: Seq<bool>, k: int)
    requires
        0 <= k < s.len(),
    ensures
        count_true(s.take(k + 1)) == count_true(s.take(k)) + if s[k] {
            1int
        } else {
            0int
        },
{
    assert(s.take(k + 1).drop_last() =~= s.take(k));
    assert(s.take(k + 1).last() == s[k]);
}

/// A scan that saw `b` nowhere before `k` finds `find_first` at `k` exactly.
proof fn lemma_find_first_at(s: Seq<bool>, b: bool, k: int)
    requires
        0 <= k <= s.len(),
        forall|j: int| 0 <= j < k ==> #[trigger] s[j] != b,
        k < s.len() ==> s[k] == b,
    ensures
        find_first(s, b) == if k < s.len() {
            k
        } else {
            s.len() as int
        },
    decreases k,
{
    if k == 0 {
        if s.len() == 0 {
        } else {
            if s[0] == b {
            }
        }
    } else {
        assert(s[0] != b);
        let tail = s.drop_first();
        assert(forall|j: int| 0 <= j < k - 1 ==> #[trigger] tail[j] != b);
        assert(k - 1 < tail.len() ==> tail[k - 1] == b);
        lemma_find_first_at(tail, b, k - 1);
    }
}

/// The fan around any corner has `n - 2` triangles, its corners are corners
/// of the polygon, and every polygon corner occurs in some triangle.
pub proof fn lemma_fan_covers(idx: Seq<u32>, c: int)
    requires
        3 <= idx.len(),
        0 <= c < idx.len(),
    ensures
        fan_from(idx, c).len() == idx.len() - 2,
        forall|t: int|
            0 <= t < idx.len() - 2 ==> {
                let tri = #[trigger] fan_from(idx, c)[t];
                exists|a: int| 0 <= a < idx.len() && idx[a] == tri.a
            } && {
                let tri = fan_from(idx, c)[t];
                exists|a: int| 0 <= a < idx.len() && idx[a] == tri.b
            } && {
                let tri = fan_from(idx, c)[t];
                exists|a: int| 0 <= a < idx.len() && idx[a] == tri.c
            },
        forall|k: int| #![trigger idx[k]]
            0 <= k < idx.len() ==> exists|t: int|
                0 <= t < idx.len() - 2 && {
                    let tri = #[trigger] fan_from(idx, c)[t];
                    tri.a == idx[k] || tri.b == idx[k] || tri.c == idx[k]
                },
{
    let n = idx.len() as int;
    assert forall|t: int| 0 <= t < n - 2 implies {
        let tri = #[trigger] fan_from(idx, c)[t];
        (exists|a: int| 0 <= a < idx.len() && idx[a] == tri.a) && (exists|a: int|
            0 <= a < idx.len() && idx[a] == tri.b) && (exists|a: int|
            0 <= a < idx.len() && idx[a] == tri.c)
    } by {
        let tri = fan_from(idx, c)[t];
        assert(idx[c] == tri.a);
        assert(idx[cyc(n, c + 1 + t)] == tri.b && 0 <= cyc(n, c + 1 + t) < n);
        assert(idx[cyc(n, c + 2 + t)] == tri.c && 0 <= cyc(n, c + 2 + t) < n);
    }
    assert forall|k: int| #![trigger idx[k]] 0 <= k < n implies exists|t: int|
        0 <= t < n - 2 && {
            let tri = #[trigger] fan_from(idx, c)[t];
            tri.a == idx[k] || tri.b == idx[k] || tri.c == idx[k]
        } by {
        if k == c {
            assert(fan_from(idx, c)[0].a == idx[k]);
        } else {
            let d = if k > c {
                k - c
            } else {
                k + n - c
            };
            assert(1 <= d <= n - 1);
            if d <= n - 2 {
                let t = d - 1;
                assert(cyc(n, c + 1 + t) == k);
                assert(fan_from(idx, c)[t].b == idx[k]);
            } else {
                let t = n - 3;
                assert(cyc(n, c + 2 + t) == k);
                assert(fan_from(idx, c)[t].c == idx[k]);
            }
        }
    }
}

/// Index of the first polygon-end marker at or after `start`, or the array
/// length when none is left.
pub open spec fn find_polygon_end(data: Seq<i32>, start: int) -> int
    decreases data.len() - start,
{
    if start < 0 || start >= data.len() {
        data.len() as int
    } else if data[start] < 0 {
        start
    } else {
        find_polygon_end(data, start + 1)
    }
}

/// The corner list of the polygon that begins at `start` and closes at `end`:
/// the polygon-vertex indices `start ..= end`.
pub open spec fn polygon_corners(start: int, end: int) -> Seq<u32> {
    Seq::new((end + 1 - start) as nat, |i: int| (start + i) as u32)
}

/// The triangle list and per-triangle polygon indices of the whole
/// polygon-vertex array from `start` on, polygons numbered from `poly`.
pub open spec fn triangulate_all_spec(pv: PolygonVertices, start: int, poly: int) -> Result<
    (Seq<Triangle>, Seq<u32>),
    FbxError,
>
    decreases pv.polygon_vertices@.len() - start,
        via triangulate_all_spec_decreases
{
    let data = pv.polygon_vertices@;
    if start >= data.len() || start < 0 {
        Ok((Seq::empty(), Seq::empty()))
    } else {
        let end = find_polygon_end(data, start);
        if end >= data.len() {
            Err(FbxError::IncompletePolygon)
        } else {
            match triangulate_spec(pv, polygon_corners(start, end)) {
                Err(e) => Err(e),
                Ok(tris) => match triangulate_all_spec(pv, end + 1, poly + 1) {
                    Err(e) => Err(e),
                    Ok((ts, ps)) => Ok(
                        (tris + ts, Seq::new(tris.len(), |i: int| poly as u32) + ps),
                    ),
                },
            }
        }
    }
}

#[via_fn]
proof fn triangulate_all_spec_decreases(pv: PolygonVertices, start: int, poly: int) {
    let data = pv.polygon_vertices@;
    if 0 <= start < data.len() {
        lemma_find_polygon_end_range(data, start);
    }
}

/// The end marker is at or after `start` and within the array when one
/// exists.
proof fn lemma_find_polygon_end_range(data: Seq<i32>, start: int)
    requires
        0 <= start <= data.len(),
    ensures
        start <= find_polygon_end(data, start) <= data.len(),
    decreases data.len() - start,
{
    if start < data.len() && data[start] >= 0 {
        lemma_find_polygon_end_range(data, start + 1);
    }
}

/// A scan that saw no marker before `j` pins `find_polygon_end` down.
proof fn lemma_find_polygon_end_at(data: Seq<i32>, start: int, j: int)
    requires
        0 <= start <= j <= data.len(),
        forall|i: int| start <= i < j ==> #[trigger] data[i] >= 0,
        j < data.len() ==> data[j] < 0,
    ensures
        find_polygon_end(data, start) == if j < data.len() {
            j
        } else {
            data.len() as int
        },
    decreases j - start,
{
    if start < j {
        lemma_find_polygon_end_at(data, start + 1, j);
    }
}

/// The polygon-vertex index behind triangle-vertex `tvi` of a triangle
/// list: corner `tvi % 3` of triangle `tvi / 3`.
pub open spec fn pvi_at(triangles: Seq<Triangle>, tvi: int) -> int {
    let tri = triangles[tvi / 3];
    if tvi % 3 == 0 {
        tri.a as int
    } else if tvi % 3 == 1 {
        tri.b as int
    } else {
        tri.c as int
    }
}

/// The source polygon behind triangle-vertex `tvi`.
pub open spec fn polygon_at(polygon_indices: Seq<u32>, tvi: int) -> int {
    polygon_indices[tvi / 3] as int
}

/// The triangulated form of a whole geometry: triangles of polygon-vertex
/// indices, and the source polygon of each triangle.  A triangle-vertex
/// index is a position in the flattened corner list of `triangles`.
pub struct TriangleVertices {
    pub triangles: Vec<Triangle>,
    pub polygon_indices: Vec<u32>,
}

impl TriangleVertices {
    /// One record of polygon index per triangle.
    pub open spec fn well_formed(self) -> bool {
        self.polygon_indices@.len() == self.triangles@.len()
    }

    /// How many triangle vertices (corner slots) the triangle list has.
    pub open spec fn vertex_count(self) -> int {
        self.triangles@.len() * 3int
    }

    /// The polygon-vertex index behind triangle-vertex `tvi`.
    pub open spec fn pvi_of(self, tvi: int) -> int {
        pvi_at(self.triangles@, tvi)
    }

    /// The polygon index behind triangle-vertex `tvi`.
    pub open spec fn polygon_of(self, tvi: int) -> int {
        polygon_at(self.polygon_indices@, tvi)
    }

    /// Looks up the polygon-vertex index of one triangle vertex.
    pub fn polygon_vertex_index(&self, tvi: usize) -> (r: u32)
        requires
            0 <= tvi < self.vertex_count(),
        ensures
            r == self.pvi_of(tvi as int),
    {
        proof {
            vstd::arithmetic::div_mod::lemma_fundamental_div_mod(tvi as int, 3);
            assert(self.triangles@.len() * 3 == 3 * self.triangles@.len());
        }
        let tri = &self.triangles[tvi / 3];
        match tvi % 3 {
            0 => tri.a,
            1 => tri.b,
            _ => tri.c,
        }
    }
}

/// Splits the polygon-vertex array into polygons and triangulates each,
/// numbering polygons in order.
pub fn triangulate_all(pv: &PolygonVertices) -> (r: Result<TriangleVertices, FbxError>)
    requires
        pv.all_corners_ok(),
        pv.polygon_vertices@.len() <= 0xFFFF_FFFF,
    ensures
        ({
            let s = triangulate_all_spec(*pv, 0, 0);
            match r {
                Ok(tv) => s is Ok && tv.triangles@ == s->Ok_0.0 && tv.polygon_indices@ == s->Ok_0.1
                    && tv.well_formed(),
                Err(e) => s is Err && e == s->Err_0,
            }
        }),
{
    let data_len = pv.polygon_vertices.len();
    let mut triangles: Vec<Triangle> = Vec::new();
    let mut polygon_indices: Vec<u32> = Vec::new();
    let mut cur: usize = 0;
    let mut poly: u32 = 0;
    while cur < data_len
        invariant
            0 <= cur <= data_len,
            data_len == pv.polygon_vertices@.len(),
            data_len <= 0xFFFF_FFFF,
            pv.all_corners_ok(),
            poly <= cur,
            polygon_indices@.len() == triangles@.len(),
            forall|j: int| 0 <= j < polygon_indices@.len() ==> #[trigger] polygon_indices@[j] < poly,
            ({
                let whole = triangulate_all_spec(*pv, 0, 0);
                match triangulate_all_spec(*pv, cur as int, poly as int) {
                    Ok((ts, ps)) => whole is Ok && whole->Ok_0.0 == triangles@ + ts
                        && whole->Ok_0.1 == polygon_indices@ + ps,
                    Err(e) => whole is Err && whole->Err_0 == e,
                }
            }),
        decreases data_len - cur,
    {
        let ghost data = pv.polygon_vertices@;
        let ghost cur0 = cur as int;
        let ghost poly0 = poly as int;
        let ghost tris0 = triangles@;
        let ghost pis0 = polygon_indices@;
        // Find this polygon's end marker.
        let mut j: usize = cur;
        let mut found_end = false;
        while j < data_len && !found_end
            invariant
                cur <= j <= data_len,
                data_len == pv.polygon_vertices@.len(),
                data == pv.polygon_vertices@,
                forall|i: int| cur <= i < j ==> #[trigger] data[i] >= 0,
                found_end ==> j < data_len && data[j as int] < 0,
            decreases data_len - j + if found_end {
                0int
            } else {
                1int
            },
        {
            if pv.polygon_vertices[j] < 0 {
                found_end = true;
            } else {
                j = j + 1;
            }
        }
        proof {
            if found_end {
                lemma_find_polygon_end_at(data, cur as int, j as int);
            } else {
                lemma_find_polygon_end_at(data, cur as int, data_len as int);
            }
        }
        if !found_end {
            return Err(FbxError::IncompletePolygon);
        }
        // The corner list of this polygon: polygon-vertex indices cur..=j.
        let mut corners: Vec<u32> = Vec::new();
        let mut i: usize = cur;
        while i <= j
            invariant
                cur <= i <= j + 1,
                j < data_len <= 0xFFFF_FFFF,
                corners@.len() == i - cur,
                forall|t: int| 0 <= t < i - cur ==> #[trigger] corners@[t] == (cur + t) as u32,
            decreases j + 1 - i,
        {
            corners.push(i as u32);
            i = i + 1;
        }
        proof {
            assert(corners@ =~= polygon_corners(cur as int, j as int));
            assert forall|k: int| 0 <= k < corners@.len() implies #[trigger] pv.corner_ok(
                corners@[k] as int,
            ) by {
                assert(corners@[k] == (cur + k) as u32);
            }
        }
        let tri_count_before = triangles.len();
        match triangulate(pv, &corners, &mut triangles) {
            Ok(()) => {},
            Err(e) => {
                return Err(e);
            },
        }
        // Record the source polygon of each new triangle.
        let ghost new_tris = triangulate_spec(*pv, corners@)->Ok_0;
        let tri_count_after = triangles.len();
        let mut t: usize = tri_count_before;
        while t < tri_count_after
            invariant
                tri_count_before <= t <= tri_count_after,
                pis0.len() == tri_count_before,
                polygon_indices@.len() == t,
                forall|x: int| 0 <= x < tri_count_before ==> #[trigger] polygon_indices@[x]
                    == pis0[x],
                forall|x: int|
                    tri_count_before <= x < t ==> #[trigger] polygon_indices@[x] == poly,
            decreases tri_count_after - t,
        {
            polygon_indices.push(poly);
            t = t + 1;
        }
        cur = j + 1;
        poly = poly + 1;
        proof {
            assert(triangles@ =~= tris0 + new_tris);
            assert(polygon_indices@ =~= pis0 + Seq::new(new_tris.len(), |i: int| poly0 as u32));
            assert(forall|x: int|
                0 <= x < polygon_indices@.len() ==> #[trigger] polygon_indices@[x] < poly);
            let whole = triangulate_all_spec(*pv, 0, 0);
            // Unfold one step of the specification at the polygon just done.
            assert(find_polygon_end(data, cur0) == j);
            assert(polygon_corners(cur0, j as int) =~= corners@);
            match triangulate_all_spec(*pv, cur as int, poly as int) {
                Ok((ts, ps)) => {
                    assert(triangulate_all_spec(*pv, cur0, poly0) == Ok::<
                        (Seq<Triangle>, Seq<u32>),
                        FbxError,
                    >((new_tris + ts, Seq::new(new_tris.len(), |i: int| poly0 as u32) + ps)));
                    assert(whole->Ok_0.0 == tris0 + (new_tris + ts));
                    assert(tris0 + (new_tris + ts) =~= (tris0 + new_tris) + ts);
                    assert(pis0 + (Seq::new(new_tris.len(), |i: int| poly0 as u32) + ps) =~= (pis0
                        + Seq::new(new_tris.len(), |i: int| poly0 as u32)) + ps);
                },
                Err(e) => {
                    assert(triangulate_all_spec(*pv, cur0, poly0) == Err::<
                        (Seq<Triangle>, Seq<u32>),
                        FbxError,
                    >(e));
                },
            }
        }
    }
    proof {
        assert(triangulate_all_spec(*pv, cur as int, poly as int) == Ok::<
            (Seq<Triangle>, Seq<u32>),
            FbxError,
        >((Seq::empty(), Seq::empty())));
        assert(triangles@ + Seq::<Triangle>::empty() =~= triangles@);
        assert(polygon_indices@ + Seq::<u32>::empty() =~= polygon_indices@);
    }
    Ok(TriangleVertices { triangles, polygon_indices })
}

/// Every successful triangulation of an n-gon has exactly `n - 2`
/// triangles.
pub proof fn lemma_triangulate_count(pv: PolygonVertices, idx: Seq<u32>)
    requires
        triangulate_spec(pv, idx) is Ok,
    ensures
        triangulate_spec(pv, idx)->Ok_0.len() == idx.len() - 2,
{
    let n = idx.len() as int;
    if n >= 5 {
        let flags = flags_of(positions_of(pv, idx));
        let cnt = count_true(flags);
        let c = pivot_of(flags, cnt <= 1);
        assert(triangulate_spec(pv, idx)->Ok_0 == fan_from(idx, c));
    }
}

/// Every successful triangulation draws its corners from the polygon's
/// corner list, and uses every corner of the polygon at least once.
pub proof fn lemma_triangulate_covers(pv: PolygonVertices, idx: Seq<u32>)
    requires
        triangulate_spec(pv, idx) is Ok,
    ensures
        forall|t: int|
            0 <= t < triangulate_spec(pv, idx)->Ok_0.len() ==> {
                let tri = #[trigger] triangulate_spec(pv, idx)->Ok_0[t];
                (exists|a: int| 0 <= a < idx.len() && idx[a] == tri.a) && (exists|a: int|
                    0 <= a < idx.len() && idx[a] == tri.b) && (exists|a: int|
                    0 <= a < idx.len() && idx[a] == tri.c)
            },
        forall|k: int| #![trigger idx[k]]
            0 <= k < idx.len() ==> exists|t: int|
                0 <= t < triangulate_spec(pv, idx)->Ok_0.len() && {
                    let tri = #[trigger] triangulate_spec(pv, idx)->Ok_0[t];
                    tri.a == idx[k] || tri.b == idx[k] || tri.c == idx[k]
                },
{
    let n = idx.len() as int;
    let out = triangulate_spec(pv, idx)->Ok_0;
    if n == 3 {
        assert(out[0].a == idx[0] && out[0].b == idx[1] && out[0].c == idx[2]);
        assert forall|k: int| #![trigger idx[k]] 0 <= k < n implies exists|t: int|
            0 <= t < out.len() && {
                let tri = #[trigger] out[t];
                tri.a == idx[k] || tri.b == idx[k] || tri.c == idx[k]
            } by {
            assert(out[0].a == idx[0] && out[0].b == idx[1] && out[0].c == idx[2]);
        }
    } else if n == 4 {
        assert(out.len() == 2);
        assert forall|k: int| #![trigger idx[k]] 0 <= k < n implies exists|t: int|
            0 <= t < out.len() && {
                let tri = #[trigger] out[t];
                tri.a == idx[k] || tri.b == idx[k] || tri.c == idx[k]
            } by {
            let ps = positions_of(pv, idx);
            if quad_keeps_first_diagonal(ps[0], ps[1], ps[2], ps[3]) {
                assert(out[0].a == idx[0] && out[0].b == idx[1] && out[0].c == idx[2]);
                assert(out[1].a == idx[2] && out[1].b == idx[3] && out[1].c == idx[0]);
            } else {
                assert(out[0].a == idx[0] && out[0].b == idx[1] && out[0].c == idx[3]);
                assert(out[1].a == idx[3] && out[1].b == idx[1] && out[1].c == idx[2]);
            }
        }
    } else {
        let flags = flags_of(positions_of(pv, idx));
        let cnt = count_true(flags);
        let c = pivot_of(flags, cnt <= 1);
        assert(out == fan_from(idx, c));
        assert(0 <= c < n) by {
            lemma_find_first_range(flags, cnt <= 1);
        }
        lemma_fan_covers(idx, c);
    }
}

/// `find_first` never leaves the sequence's index range extended by one.
proof fn lemma_find_first_range(s: Seq<bool>, b: bool)
    ensures
        0 <= find_first(s, b) <= s.len(),
    decreases s.len(),
{
    if s.len() > 0 && s[0] != b {
        lemma_find_first_range(s.drop_first(), b);
    }
}

/// The position of corner `j` in the polygon's cyclic order, counted
/// from corner `c`.
pub open spec fn cyclic_rank(n: int, c: int, j: int) -> int {
    if j >= c {
        j - c
    } else {
        j + n - c
    }
}

/// Winding consistency of fans: every fan triangle lists its corners in
/// the polygon's cyclic order counted from the fan centre, so the input
/// winding carries over to each output triangle.
pub proof fn lemma_fan_winding(idx: Seq<u32>, c: int)
    requires
        3 <= idx.len(),
        0 <= c < idx.len(),
    ensures
        forall|t: int|
            0 <= t < idx.len() - 2 ==> {
                let n = idx.len() as int;
                let j1 = cyc(n, c + 1 + t);
                let j2 = cyc(n, c + 2 + t);
                &&& #[trigger] fan_from(idx, c)[t] == Triangle {
                    a: idx[c],
                    b: idx[j1],
                    c: idx[j2],
                }
                &&& cyclic_rank(n, c, c) == 0
                &&& cyclic_rank(n, c, j1) == 1 + t
                &&& cyclic_rank(n, c, j2) == 2 + t
                &&& cyclic_rank(n, c, c) < cyclic_rank(n, c, j1) < cyclic_rank(n, c, j2)
            },
{
}

/// Triangulates one polygon, appending to `triangles`.
///
/// A polygon of fewer than three corners is invalid; one with two or more
/// concave and two or more convex corners is unsupported, and `triangles`
/// is then left unchanged.  On success exactly `n - 2` triangles are
/// appended.
pub fn triangulate(pv: &PolygonVertices, indices: &Vec<u32>, triangles: &mut Vec<Triangle>) -> (r:
    Result<(), FbxError>)
    requires
        forall|k: int|
            0 <= k < indices@.len() ==> #[trigger] pv.corner_ok(indices@[k] as int),
    ensures
        ({
            let s = triangulate_spec(*pv, indices@);
            match r {
                Ok(()) => s is Ok && final(triangles)@ == old(triangles)@ + s->Ok_0,
                Err(e) => s is Err && e == s->Err_0 && final(triangles)@ == old(triangles)@,
            }
        }),
{
    let n = indices.len();
    if n < 3 {
        return Err(FbxError::InvalidPolygon);
    }
    if n == 3 {
        let tri = Triangle { a: indices[0], b: indices[1], c: indices[2] };
        triangles.push(tri);
        proof {
            assert(triangles@ =~= old(triangles)@ + triangulate_spec(*pv, indices@)->Ok_0);
        }
        return Ok(());
    }
    if n == 4 {
        proof {
            assert(pv.corner_ok(indices@[0] as int));
            assert(pv.corner_ok(indices@[1] as int));
            assert(pv.corner_ok(indices@[2] as int));
            assert(pv.corner_ok(indices@[3] as int));
        }
        let p0 = pv.position(indices[0]);
        let p1 = pv.position(indices[1]);
        let p2 = pv.position(indices[2]);
        let p3 = pv.position(indices[3]);
        let ghost ps = positions_of(*pv, indices@);
        proof {
            assert(ps[0] == (p0[0] as int, p0[1] as int, p0[2] as int));
            assert(ps[1] == (p1[0] as int, p1[1] as int, p1[2] as int));
            assert(ps[2] == (p2[0] as int, p2[1] as int, p2[2] as int));
            assert(ps[3] == (p3[0] as int, p3[1] as int, p3[2] as int));
        }
        if quad_choice(p0, p1, p2, p3) {
            triangles.push(Triangle { a: indices[0], b: indices[1], c: indices[2] });
            triangles.push(Triangle { a: indices[2], b: indices[3], c: indices[0] });
        } else {
            triangles.push(Triangle { a: indices[0], b: indices[1], c: indices[3] });
            triangles.push(Triangle { a: indices[3], b: indices[1], c: indices[2] });
        }
        proof {
            assert(triangles@ =~= old(triangles)@ + triangulate_spec(*pv, indices@)->Ok_0);
        }
        return Ok(());
    }
    let ghost ps = positions_of(*pv, indices@);

    // Gather the corner positions.
    let mut pts: Vec<[i64; 3]> = Vec::new();
    let mut k: usize = 0;
    while k < n
        invariant
            0 <= k <= n,
            n == indices@.len(),
            ps == positions_of(*pv, indices@),
            forall|j: int|
                0 <= j < indices@.len() ==> #[trigger] pv.corner_ok(indices@[j] as int),
            pts@.len() == k,
            forall|j: int| #![trigger pts@[j]]
                0 <= j < k ==> (pts@[j][0] as int, pts@[j][1] as int, pts@[j][2] as int) == ps[j],
        decreases n - k,
    {
        proof {
            assert(pv.corner_ok(indices@[k as int] as int));
        }
        let p = pv.position(indices[k]);
        pts.push(p);
        k = k + 1;
    }
    proof {
        assert forall|j: int| 0 <= j < n implies -0x2000_0000 <= #[trigger] ps[j].0 <= 0x2000_0000
            && -0x2000_0000 <= ps[j].1 <= 0x2000_0000 && -0x2000_0000 <= ps[j].2 <= 0x2000_0000 by {
            assert(pv.corner_ok(indices@[j] as int));
        }
    }

    // Bounding-box extents along each axis.
    let mut min_x = pts[0][0];
    let mut max_x = pts[0][0];
    let mut min_y = pts[0][1];
    let mut max_y = pts[0][1];
    let mut min_z = pts[0][2];
    let mut max_z = pts[0][2];
    let mut k: usize = 1;
    proof {
        assert(coords_of(ps, Axis::X).take(1) =~= seq![ps[0].0]);
        assert(coords_of(ps, Axis::Y).take(1) =~= seq![ps[0].1]);
        assert(coords_of(ps, Axis::Z).take(1) =~= seq![ps[0].2]);
    }
    while k < n
        invariant
            1 <= k <= n,
            n == indices@.len(),
            n == ps.len(),
            n >= 5,
            pts@.len() == n,
            forall|j: int| #![trigger pts@[j]]
                0 <= j < n ==> (pts@[j][0] as int, pts@[j][1] as int, pts@[j][2] as int) == ps[j],
            min_x as int == seq_min(coords_of(ps, Axis::X).take(k as int)),
            max_x as int == seq_max(coords_of(ps, Axis::X).take(k as int)),
            min_y as int == seq_min(coords_of(ps, Axis::Y).take(k as int)),
            max_y as int == seq_max(coords_of(ps, Axis::Y).take(k as int)),
            min_z as int == seq_min(coords_of(ps, Axis::Z).take(k as int)),
            max_z as int == seq_max(coords_of(ps, Axis::Z).take(k as int)),
        decreases n - k,
    {
        proof {
            assert(coords_of(ps, Axis::X).take(k + 1).drop_last() =~= coords_of(ps, Axis::X).take(
                k as int,
            ));
            assert(coords_of(ps, Axis::Y).take(k + 1).drop_last() =~= coords_of(ps, Axis::Y).take(
                k as int,
            ));
            assert(coords_of(ps, Axis::Z).take(k + 1).drop_last() =~= coords_of(ps, Axis::Z).take(
                k as int,
            ));
        }
        let p = pts[k];
        if p[0] < min_x {
            min_x = p[0];
        }
        if p[0] > max_x {
            max_x = p[0];
        }
        if p[1] < min_y {
            min_y = p[1];
        }
        if p[1] > max_y {
            max_y = p[1];
        }
        if p[2] < min_z {
            min_z = p[2];
        }
        if p[2] > max_z {
            max_z = p[2];
        }
        k = k + 1;
    }
    proof {
        assert(coords_of(ps, Axis::X).take(n as int) =~= coords_of(ps, Axis::X));
        assert(coords_of(ps, Axis::Y).take(n as int) =~= coords_of(ps, Axis::Y));
        assert(coords_of(ps, Axis::Z).take(n as int) =~= coords_of(ps, Axis::Z));
        assert forall|j: int| 0 <= j < n implies -0x2000_0000 <= #[trigger] coords_of(
            ps,
            Axis::X,
        )[j] <= 0x2000_0000 by {
            assert(pv.corner_ok(indices@[j] as int));
        }
        assert forall|j: int| 0 <= j < n implies -0x2000_0000 <= #[trigger] coords_of(
            ps,
            Axis::Y,
        )[j] <= 0x2000_0000 by {
            assert(pv.corner_ok(indices@[j] as int));
        }
        assert forall|j: int| 0 <= j < n implies -0x2000_0000 <= #[trigger] coords_of(
            ps,
            Axis::Z,
        )[j] <= 0x2000_0000 by {
            assert(pv.corner_ok(indices@[j] as int));
        }
        lemma_minmax_bounds(coords_of(ps, Axis::X), -0x2000_0000, 0x2000_0000);
        lemma_minmax_bounds(coords_of(ps, Axis::Y), -0x2000_0000, 0x2000_0000);
        lemma_minmax_bounds(coords_of(ps, Axis::Z), -0x2000_0000, 0x2000_0000);
    }
    let wx = max_x - min_x;
    let wy = max_y - min_y;
    let wz = max_z - min_z;

    // Choose the projection plane and project.
    let axis = if wx < wy && wz < wx {
        Axis::Z
    } else if wx < wy {
        Axis::X
    } else if wz < wy {
        Axis::Z
    } else {
        Axis::Y
    };
    proof {
        assert(axis == axis_of(ps));
    }
    let mut pts2: Vec<(i64, i64)> = Vec::new();
    let mut k: usize = 0;
    while k < n
        invariant
            0 <= k <= n,
            n == ps.len(),
            pts@.len() == n,
            axis == axis_of(ps),
            forall|j: int| #![trigger pts@[j]]
                0 <= j < n ==> (pts@[j][0] as int, pts@[j][1] as int, pts@[j][2] as int) == ps[j],
            pts2@.len() == k,
            forall|j: int| #![trigger pts2@[j]]
                0 <= j < k ==> (pts2@[j].0 as int, pts2@[j].1 as int) == projected_of(ps)[j],
        decreases n - k,
    {
        let p = pts[k];
        let q = match axis {
            Axis::X => (p[1], p[2]),
            Axis::Y => (p[0], p[2]),
            Axis::Z => (p[0], p[1]),
        };
        proof {
            assert((q.0 as int, q.1 as int) == projected_of(ps)[k as int]);
        }
        pts2.push(q);
        k = k + 1;
    }

    // Convexity flags, one per corner.
    let ghost q2 = projected_of(ps);
    proof {
        assert forall|j: int| 0 <= j < n implies -0x2000_0000 <= #[trigger] q2[j].0 <= 0x2000_0000
            && -0x2000_0000 <= q2[j].1 <= 0x2000_0000 by {
            assert(pv.corner_ok(indices@[j] as int));
        }
    }
    let mut flags: Vec<bool> = Vec::new();
    let mut k: usize = 0;
    while k < n
        invariant
            0 <= k <= n,
            5 <= n == ps.len(),
            pts2@.len() == n,
            q2 == projected_of(ps),
            q2.len() == n,
            forall|j: int| #![trigger pts2@[j]]
                0 <= j < n ==> (pts2@[j].0 as int, pts2@[j].1 as int) == q2[j],
            forall|j: int|
                0 <= j < n ==> -0x2000_0000 <= #[trigger] q2[j].0 <= 0x2000_0000 && -0x2000_0000
                    <= q2[j].1 <= 0x2000_0000,
            flags@.len() == k,
            forall|j: int| 0 <= j < k ==> #[trigger] flags@[j] == flags_of(ps)[j],
        decreases n - k,
    {
        let prev: usize = if k == 0 {
            n - 1
        } else {
            k - 1
        };
        let next: usize = if k == n - 1 {
            0
        } else {
            k + 1
        };
        let u0 = pts2[prev].0 as i128 - pts2[k].0 as i128;
        let u1 = pts2[prev].1 as i128 - pts2[k].1 as i128;
        let v0 = pts2[k].0 as i128 - pts2[next].0 as i128;
        let v1 = pts2[k].1 as i128 - pts2[next].1 as i128;
        let pd = mul_narrow(u0, v1) - mul_narrow(u1, v0);
        flags.push(pd > 0);
        proof {
            assert(flags@[k as int] == flag_at(q2, k as int));
        }
        k = k + 1;
    }

    // Count the concave corners.
    let ghost gflags = flags_of(ps);
    proof {
        assert(flags@ =~= gflags);
    }
    let mut cnt: usize = 0;
    let mut k: usize = 0;
    while k < n
        invariant
            0 <= k <= n,
            n == gflags.len(),
            flags@ == gflags,
            flags@.len() == n,
            cnt as int == count_true(gflags.take(k as int)),
            cnt <= k,
        decreases n - k,
    {
        proof {
            lemma_count_take_step(gflags, k as int);
        }
        if flags[k] {
            cnt = cnt + 1;
        }
        k = k + 1;
    }
    proof {
        assert(gflags.take(n as int) =~= gflags);
    }

    if cnt <= 1 || cnt >= n - 1 {
        let minor = cnt <= 1;
        // Fan centre: first corner whose flag is in the minority.
        let mut pivot: usize = 0;
        let mut k: usize = 0;
        let mut found = false;
        while k < n && !found
            invariant
                0 <= k <= n,
                n == gflags.len(),
                flags@ == gflags,
                flags@.len() == n,
                !found ==> pivot == 0 && (forall|j: int| 0 <= j < k ==> #[trigger] gflags[j]
                    != minor),
                found ==> pivot < n && gflags[pivot as int] == minor && (forall|j: int|
                    0 <= j < pivot ==> #[trigger] gflags[j] != minor),
            decreases n - k + if found {
                0int
            } else {
                1int
            },
        {
            if flags[k] == minor {
                pivot = k;
                found = true;
            } else {
                assert(gflags[k as int] != minor);
                k = k + 1;
            }
        }
        proof {
            if found {
                lemma_find_first_at(gflags, minor, pivot as int);
            } else {
                lemma_find_first_at(gflags, minor, n as int);
            }
            assert(pivot as int == pivot_of(gflags, minor));
        }

        // Emit the fan.
        let ghost fan = fan_from(indices@, pivot as int);
        let mut t: usize = 0;
        while t < n - 2
            invariant
                0 <= t <= n - 2,
                5 <= n == indices@.len(),
                pivot < n,
                fan == fan_from(indices@, pivot as int),
                triangles@ == old(triangles)@ + fan.take(t as int),
            decreases n - 2 - t,
        {
            let d1 = 1 + t;
            let j1 = if pivot >= n - d1 {
                pivot - (n - d1)
            } else {
                pivot + d1
            };
            let d2 = 2 + t;
            let j2 = if pivot >= n - d2 {
                pivot - (n - d2)
            } else {
                pivot + d2
            };
            let tri = Triangle { a: indices[pivot], b: indices[j1], c: indices[j2] };
            proof {
                assert(j1 as int == cyc(n as int, pivot + 1 + t));
                assert(j2 as int == cyc(n as int, pivot + 2 + t));
                assert(tri == fan[t as int]);
                assert(fan.take(t as int).push(tri) =~= fan.take(t + 1));
            }
            triangles.push(tri);
            t = t + 1;
        }
        proof {
            assert(fan.take((n - 2) as int) =~= fan);
            assert(triangulate_spec(*pv, indices@) == Ok::<Seq<Triangle>, FbxError>(fan));
        }
        Ok(())
    } else {
        assert(triangulate_spec(*pv, indices@) == Err::<Seq<Triangle>, FbxError>(
            FbxError::UnsupportedPolygon,
        ));
        Err(FbxError::UnsupportedPolygon)
    }
}

} // verus!
