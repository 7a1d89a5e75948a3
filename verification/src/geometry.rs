//! Raw geometry data of one mesh: the control-point pool and the flat
//! polygon-vertex array.
//!
//! A control point is a unique 3D position.  The polygon-vertex array lists
//! control-point indices corner by corner; a polygon is a contiguous run,
//! closed by a corner stored bitwise-negated.  A `PolygonVertexIndex` is a
//! position in that flat array, a `ControlPointIndex` a position in the pool.

use vstd::prelude::*;

use crate::error::FbxError;

verus! {

/// Largest coordinate magnitude the geometry pipeline accepts.  Keeping
/// every position inside this bound lets convexity tests run in exact
/// 128-bit arithmetic.
pub const COORD_LIMIT: i64 = 0x2000_0000;

/// The control-point index stored in one polygon-vertex entry: a negative
/// entry closes its polygon and holds the index bitwise-negated.
pub open spec fn decoded_control_point(x: int) -> int {
    if x < 0 {
        -x - 1
    } else {
        x
    }
}

/// A triangle of polygon-vertex indices, winding preserved from its source
/// polygon.
#[derive(Clone, Copy, Debug, PartialEq, Eq, Structural)]
pub struct Triangle {
    pub a: u32,
    pub b: u32,
    pub c: u32,
}

/// Control points and the polygon-vertex array of one geometry object.
pub struct PolygonVertices {
    /// The deduplicated position pool, fixed-point coordinates.
    pub control_points: Vec<[i64; 3]>,
    /// Control-point indices, one per polygon corner, polygon ends marked
    /// by bitwise negation.
    pub polygon_vertices: Vec<i32>,
}

impl PolygonVertices {
    /// Control-point index referenced by polygon vertex `pvi`.
    pub open spec fn cp_index_of(self, pvi: int) -> int {
        decoded_control_point(self.polygon_vertices@[pvi] as int)
    }

    /// Whether `pvi` is a usable corner: inside the array, referencing an
    /// existing control point.
    pub open spec fn pvi_ok(self, pvi: int) -> bool {
        &&& 0 <= pvi < self.polygon_vertices@.len()
        &&& 0 <= self.cp_index_of(pvi) < self.control_points@.len()
    }

    /// The 3D position behind polygon vertex `pvi`.
    pub open spec fn position_of(self, pvi: int) -> (int, int, int) {
        let p = self.control_points@[self.cp_index_of(pvi)];
        (p[0] as int, p[1] as int, p[2] as int)
    }

    /// Whether the position behind `pvi` lies inside the coordinate bound.
    pub open spec fn position_bounded(self, pvi: int) -> bool {
        let (x, y, z) = self.position_of(pvi);
        &&& -COORD_LIMIT <= x <= COORD_LIMIT
        &&& -COORD_LIMIT <= y <= COORD_LIMIT
        &&& -COORD_LIMIT <= z <= COORD_LIMIT
    }

    /// Whether one corner references an existing, bounded control point.
    pub open spec fn corner_ok(self, pvi: int) -> bool {
        self.pvi_ok(pvi) && self.position_bounded(pvi)
    }

    /// Every corner of the array references an existing, bounded control
    /// point.
    pub open spec fn all_corners_ok(self) -> bool {
        forall|pvi: int| 0 <= pvi < self.polygon_vertices@.len() ==> #[trigger] self.corner_ok(pvi)
    }

    /// Checks every corner of the array at run time, so that callers with
    /// arbitrary document data can establish `all_corners_ok`.
    pub fn validate(&self) -> (r: Result<(), FbxError>)
        ensures
            r is Ok <==> self.all_corners_ok(),
            r is Err ==> r->Err_0 == FbxError::ControlPointOutOfRange,
    {
        let n = self.polygon_vertices.len();
        let cp_n = self.control_points.len();
        let mut k: usize = 0;
        while k < n
            invariant
                0 <= k <= n,
                n == self.polygon_vertices@.len(),
                cp_n == self.control_points@.len(),
                forall|pvi: int| 0 <= pvi < k ==> #[trigger] self.corner_ok(pvi),
            decreases n - k,
        {
            let cp = decode_polygon_vertex(self.polygon_vertices[k]);
            assert(self.cp_index_of(k as int) == cp as int);
            if (cp as usize) >= cp_n {
                assert(!self.corner_ok(k as int));
                return Err(FbxError::ControlPointOutOfRange);
            }
            let p = self.control_points[cp as usize];
            assert(self.position_of(k as int) == (p[0] as int, p[1] as int, p[2] as int));
            if p[0] < -COORD_LIMIT || p[0] > COORD_LIMIT || p[1] < -COORD_LIMIT || p[1]
                > COORD_LIMIT || p[2] < -COORD_LIMIT || p[2] > COORD_LIMIT {
                assert(!self.corner_ok(k as int));
                return Err(FbxError::ControlPointOutOfRange);
            }
            assert(self.corner_ok(k as int));
            k = k + 1;
        }
        Ok(())
    }

    /// Position lookup for a corner known to be usable.
    pub fn position(&self, pvi: u32) -> (p: [i64; 3])
        requires
            self.pvi_ok(pvi as int),
        ensures
            (p[0] as int, p[1] as int, p[2] as int) == self.position_of(pvi as int),
    {
        let cp = decode_polygon_vertex(self.polygon_vertices[pvi as usize]);
        self.control_points[cp as usize]
    }
}

/// Strips the polygon-end marker from a polygon-vertex entry.
pub fn decode_polygon_vertex(x: i32) -> (r: u32)
    ensures
        r == decoded_control_point(x as int),
{
    if x < 0 {
        ((-(x as i64)) - 1) as u32
    } else {
        x as u32
    }
}

} // verus!
