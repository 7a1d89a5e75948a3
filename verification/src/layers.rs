//! Layer attribute reader.
//!
//! FBX stores per-vertex attributes (normals, UVs, colors, material
//! assignment) in layer elements.  A layer element maps a triangle vertex to
//! a value in two steps: the mapping mode picks a lookup index (the control
//! point, the polygon vertex, the polygon, or a shared slot), and the
//! reference mode resolves it directly or through an index array.  Only the
//! first declared layer of each kind is consulted.
//!
//! UV values are converted from the FBX convention to the renderer's by a
//! vertical flip and origin shift: `target = raw * (1, -1) + (0, 1)`.

use vstd::prelude::*;

use crate::error::FbxError;
use crate::fixed::FP_ONE;
use crate::geometry::{decoded_control_point, PolygonVertices, Triangle};
use crate::triangulate::{polygon_at, pvi_at, TriangleVertices};

verus! {

/// How a layer element assigns values to geometry.
#[derive(Clone, Copy, Debug, PartialEq, Eq, Structural)]
pub enum MappingMode {
    Undetermined,
    ByControlPoint,
    ByPolygonVertex,
    ByPolygon,
    ByEdge,
    AllSame,
}

/// How a lookup index reaches a value.
#[derive(Clone, Copy, Debug, PartialEq, Eq, Structural)]
pub enum ReferenceMode {
    Direct,
    IndexToDirect,
}

/// One layer element: a value array and, for indexed reference, an index
/// array between lookups and values.
pub struct LayerElement<V> {
    pub mapping: MappingMode,
    pub reference: ReferenceMode,
    pub values: Vec<V>,
    pub indices: Vec<i32>,
}

/// The material-assignment layer: its index array holds the material slot
/// of each mapped unit directly, and FBX only defines it for the
/// index-to-direct reference mode.
pub struct MaterialLayer {
    pub mapping: MappingMode,
    pub reference: ReferenceMode,
    pub indices: Vec<i32>,
}

/// The first declared layer of a mesh, one optional element per kind.
pub struct MeshLayers {
    pub normals: Option<LayerElement<[i64; 3]>>,
    pub uvs: Option<LayerElement<[i64; 2]>>,
    pub colors: Option<LayerElement<[i64; 4]>>,
    pub materials: Option<MaterialLayer>,
}

/// The lookup index of triangle vertex `tvi` under a mapping mode, before
/// the reference step.
pub open spec fn mapped_index(
    pv: PolygonVertices,
    triangles: Seq<Triangle>,
    polygons: Seq<u32>,
    mapping: MappingMode,
    tvi: int,
) -> Result<int, FbxError> {
    match mapping {
        MappingMode::Undetermined => Err(FbxError::UnsupportedMappingMode),
        MappingMode::ByEdge => Err(FbxError::UnsupportedMappingMode),
        MappingMode::ByControlPoint => {
            let pvi = pvi_at(triangles, tvi);
            if 0 <= pvi < pv.polygon_vertices@.len() {
                Ok(pv.cp_index_of(pvi))
            } else {
                Err(FbxError::ControlPointOutOfRange)
            }
        },
        MappingMode::ByPolygonVertex => Ok(pvi_at(triangles, tvi)),
        MappingMode::ByPolygon => Ok(polygon_at(polygons, tvi)),
        MappingMode::AllSame => Ok(0),
    }
}

/// The reference step: a direct lookup keeps the index, an indexed lookup
/// reads the index array, stripping a polygon-end marker.
pub open spec fn referenced_index(
    reference: ReferenceMode,
    indices: Seq<i32>,
    i: int,
) -> Result<int, FbxError> {
    match reference {
        ReferenceMode::Direct => Ok(i),
        ReferenceMode::IndexToDirect => {
            if 0 <= i < indices.len() {
                Ok(decoded_control_point(indices[i] as int))
            } else {
                Err(FbxError::LayerIndexOutOfRange)
            }
        },
    }
}

/// The index into a layer's value array behind triangle vertex `tvi`, with
/// the final range check against the value array's length.
pub open spec fn content_index(
    pv: PolygonVertices,
    triangles: Seq<Triangle>,
    polygons: Seq<u32>,
    mapping: MappingMode,
    reference: ReferenceMode,
    indices: Seq<i32>,
    array_len: int,
    tvi: int,
) -> Result<int, FbxError> {
    match mapped_index(pv, triangles, polygons, mapping, tvi) {
        Err(e) => Err(e),
        Ok(i) => match referenced_index(reference, indices, i) {
            Err(e) => Err(e),
            Ok(direct) => {
                if direct < array_len {
                    Ok(direct)
                } else {
                    Err(FbxError::LayerIndexOutOfRange)
                }
            },
        },
    }
}

impl<V> LayerElement<V> {
    /// The value this layer assigns to triangle vertex `tvi`.
    pub open spec fn value_spec(
        self,
        pv: PolygonVertices,
        triangles: Seq<Triangle>,
        polygons: Seq<u32>,
        tvi: int,
    ) -> Result<V, FbxError> {
        match content_index(
            pv,
            triangles,
            polygons,
            self.mapping,
            self.reference,
            self.indices@,
            self.values@.len() as int,
            tvi,
        ) {
            Err(e) => Err(e),
            Ok(i) => Ok(self.values@[i]),
        }
    }
}

impl MaterialLayer {
    /// The material slot this layer assigns to triangle vertex `tvi`.
    pub open spec fn slot_spec(
        self,
        pv: PolygonVertices,
        triangles: Seq<Triangle>,
        polygons: Seq<u32>,
        tvi: int,
    ) -> Result<u32, FbxError> {
        if self.reference != ReferenceMode::IndexToDirect {
            Err(FbxError::UnsupportedMappingMode)
        } else {
            match content_index(
                pv,
                triangles,
                polygons,
                self.mapping,
                ReferenceMode::Direct,
                Seq::empty(),
                self.indices@.len() as int,
                tvi,
            ) {
                Err(e) => Err(e),
                Ok(i) => {
                    if self.indices@[i] < 0 {
                        Err(FbxError::NegativeMaterialIndex)
                    } else {
                        Ok(self.indices@[i] as u32)
                    }
                },
            }
        }
    }
}

/// Resolves the lookup index of one triangle vertex.
fn mapped_index_exec(
    pv: &PolygonVertices,
    tv: &TriangleVertices,
    mapping: MappingMode,
    tvi: usize,
) -> (r: Result<usize, FbxError>)
    requires
        tv.well_formed(),
        0 <= tvi < tv.vertex_count(),
        tv.vertex_count() <= usize::MAX,
    ensures
        ({
            let s = mapped_index(*pv, tv.triangles@, tv.polygon_indices@, mapping, tvi as int);
            match r {
                Ok(i) => s is Ok && i as int == s->Ok_0,
                Err(e) => s is Err && e == s->Err_0,
            }
        }),
{
    match mapping {
        MappingMode::Undetermined => Err(FbxError::UnsupportedMappingMode),
        MappingMode::ByEdge => Err(FbxError::UnsupportedMappingMode),
        MappingMode::ByControlPoint => {
            let pvi = tv.polygon_vertex_index(tvi);
            if (pvi as usize) < pv.polygon_vertices.len() {
                let cp = crate::geometry::decode_polygon_vertex(pv.polygon_vertices[pvi as usize]);
                Ok(cp as usize)
            } else {
                Err(FbxError::ControlPointOutOfRange)
            }
        },
        MappingMode::ByPolygonVertex => {
            let pvi = tv.polygon_vertex_index(tvi);
            Ok(pvi as usize)
        },
        MappingMode::ByPolygon => {
            proof {
                vstd::arithmetic::div_mod::lemma_fundamental_div_mod(tvi as int, 3);
                assert(tv.triangles@.len() * 3 == 3 * tv.triangles@.len());
            }
            let poly = tv.polygon_indices[tvi / 3];
            Ok(poly as usize)
        },
        MappingMode::AllSame => Ok(0),
    }
}

impl<V: Copy> LayerElement<V> {
    /// Reads the value of one triangle vertex.
    pub fn value_at(&self, pv: &PolygonVertices, tv: &TriangleVertices, tvi: usize) -> (r: Result<
        V,
        FbxError,
    >)
        requires
            tv.well_formed(),
            0 <= tvi < tv.vertex_count(),
            tv.vertex_count() <= usize::MAX,
        ensures
            r == self.value_spec(*pv, tv.triangles@, tv.polygon_indices@, tvi as int),
    {
        let i = match mapped_index_exec(pv, tv, self.mapping, tvi) {
            Ok(i) => i,
            Err(e) => {
                return Err(e);
            },
        };
        let direct = match self.reference {
            ReferenceMode::Direct => i,
            ReferenceMode::IndexToDirect => {
                if i < self.indices.len() {
                    crate::geometry::decode_polygon_vertex(self.indices[i]) as usize
                } else {
                    return Err(FbxError::LayerIndexOutOfRange);
                }
            },
        };
        if direct < self.values.len() {
            Ok(self.values[direct])
        } else {
            Err(FbxError::LayerIndexOutOfRange)
        }
    }
}

impl MaterialLayer {
    /// Reads the material slot of one triangle vertex.
    pub fn slot_at(&self, pv: &PolygonVertices, tv: &TriangleVertices, tvi: usize) -> (r: Result<
        u32,
        FbxError,
    >)
        requires
            tv.well_formed(),
            0 <= tvi < tv.vertex_count(),
            tv.vertex_count() <= usize::MAX,
        ensures
            r == self.slot_spec(*pv, tv.triangles@, tv.polygon_indices@, tvi as int),
    {
        if !matches!(self.reference, ReferenceMode::IndexToDirect) {
            return Err(FbxError::UnsupportedMappingMode);
        }
        let i = match mapped_index_exec(pv, tv, self.mapping, tvi) {
            Ok(i) => i,
            Err(e) => {
                return Err(e);
            },
        };
        if i < self.indices.len() {
            let v = self.indices[i];
            if v < 0 {
                Err(FbxError::NegativeMaterialIndex)
            } else {
                Ok(v as u32)
            }
        } else {
            Err(FbxError::LayerIndexOutOfRange)
        }
    }
}

/// The UV-space conversion: the vertical axis flips and the origin moves to
/// the other corner, `target = raw * (1, -1) + (0, 1)`.
pub open spec fn uv_flip_spec(uv: (int, int)) -> (int, int) {
    (uv.0, FP_ONE - uv.1)
}

/// Converting UV space twice gives the original value back.
pub proof fn lemma_uv_flip_round_trip(uv: (int, int))
    ensures
        uv_flip_spec(uv_flip_spec(uv)) == uv,
{
}

/// Converts one UV pair from FBX space to the renderer's space.
pub fn flip_uv(uv: [i64; 2]) -> (r: [i64; 2])
    requires
        -0x2000_0000 <= uv[0] <= 0x2000_0000,
        -0x2000_0000 <= uv[1] <= 0x2000_0000,
    ensures
        (r[0] as int, r[1] as int) == uv_flip_spec((uv[0] as int, uv[1] as int)),
{
    [uv[0], FP_ONE - uv[1]]
}

} // verus!
