//! Mesh assembler.
//!
//! Drives the triangulator and the layer attribute reader to build flat
//! vertex buffers from one geometry object.  Positions are expanded per
//! triangle-vertex occurrence — not deduplicated, since normals and UVs
//! differ per occurrence.  If a material layer is present, triangle-vertex
//! indices are bucketed by material slot into one primitive per slot,
//! slots in ascending order, empty primitives preserved so that slot and
//! primitive stay in correspondence; a slot outside the mesh's material
//! range is an error, not a silent index.

use vstd::prelude::*;

use crate::error::{FbxError, LayerKind};
use crate::geometry::{PolygonVertices, Triangle};
use crate::layers::{uv_flip_spec, MeshLayers};
use crate::triangulate::{pvi_at, triangulate_all, triangulate_all_spec, TriangleVertices};

verus! {

/// One geometry object as handed to the assembler: the raw polygon data and
/// its first layer.
pub struct GeometryObject {
    pub vertices: PolygonVertices,
    pub layers: MeshLayers,
}

/// One material-homogeneous index buffer sharing a mesh's attribute arrays.
pub struct Primitive {
    pub material_slot: u32,
    pub indices: Vec<u32>,
}

/// The assembled buffers of one mesh: attribute arrays indexed one-to-one
/// by output vertex, and one or more primitives.
pub struct MeshBuffers {
    pub positions: Vec<[i64; 3]>,
    pub normals: Vec<[i64; 3]>,
    pub uvs: Vec<[i64; 2]>,
    pub primitives: Vec<Primitive>,
}

impl MeshBuffers {
    /// The buffer-length invariant: every attribute array has one entry per
    /// output vertex, and every primitive index is a valid offset.
    pub open spec fn well_formed(self) -> bool {
        &&& self.positions@.len() == self.normals@.len()
        &&& self.positions@.len() == self.uvs@.len()
        &&& forall|s: int|
            0 <= s < self.primitives@.len() ==> #[trigger] prim_indices_valid(
                self.primitives@[s],
                self.positions@.len() as int,
            )
    }
}

/// Every index of one primitive is a valid offset into the attribute
/// arrays.
pub open spec fn prim_indices_valid(p: Primitive, count: int) -> bool {
    forall|j: int| 0 <= j < p.indices@.len() ==> (#[trigger] p.indices@[j] as int) < count
}

/// The expanded position of one triangle vertex.
pub open spec fn position_at(pv: PolygonVertices, triangles: Seq<Triangle>, tvi: int) -> Result<
    (int, int, int),
    FbxError,
> {
    let pvi = pvi_at(triangles, tvi);
    if pv.pvi_ok(pvi) {
        Ok(pv.position_of(pvi))
    } else {
        Err(FbxError::ControlPointOutOfRange)
    }
}

/// The normal of one triangle vertex, from the first normal layer.
pub open spec fn normal_at(
    geo: GeometryObject,
    triangles: Seq<Triangle>,
    polygons: Seq<u32>,
    tvi: int,
) -> Result<[i64; 3], FbxError> {
    match geo.layers.normals {
        Option::None => Err(FbxError::MissingLayerElement(LayerKind::Normal)),
        Option::Some(le) => le.value_spec(geo.vertices, triangles, polygons, tvi),
    }
}

/// The UV of one triangle vertex, already converted to the renderer's UV
/// space; a raw value outside the coordinate bound is reported rather than
/// wrapped.
pub open spec fn uv_at(
    geo: GeometryObject,
    triangles: Seq<Triangle>,
    polygons: Seq<u32>,
    tvi: int,
) -> Result<(int, int), FbxError> {
    match geo.layers.uvs {
        Option::None => Err(FbxError::MissingLayerElement(LayerKind::Uv)),
        Option::Some(le) => match le.value_spec(geo.vertices, triangles, polygons, tvi) {
            Err(e) => Err(e),
            Ok(raw) => {
                if -0x2000_0000 <= raw[0] <= 0x2000_0000 && -0x2000_0000 <= raw[1] <= 0x2000_0000 {
                    Ok(uv_flip_spec((raw[0] as int, raw[1] as int)))
                } else {
                    Err(FbxError::NumericOverflow)
                }
            },
        },
    }
}

/// The material slot of one triangle vertex, checked against the mesh's
/// slot count.
pub open spec fn slot_at(
    geo: GeometryObject,
    triangles: Seq<Triangle>,
    polygons: Seq<u32>,
    material_count: int,
    tvi: int,
) -> Result<u32, FbxError> {
    match geo.layers.materials {
        Option::None => Err(FbxError::MissingLayerElement(LayerKind::Material)),
        Option::Some(ml) => match ml.slot_spec(geo.vertices, triangles, polygons, tvi) {
            Err(e) => Err(e),
            Ok(s) => {
                if (s as int) < material_count {
                    Ok(s)
                } else {
                    Err(FbxError::MaterialIndexOutOfRange)
                }
            },
        },
    }
}

/// The triangle-vertex indices assigned to slot `s`, in ascending order.
pub open spec fn bucket(slots: Seq<u32>, s: u32) -> Seq<u32>
    decreases slots.len(),
{
    if slots.len() == 0 {
        Seq::empty()
    } else {
        bucket(slots.drop_last(), s) + if slots.last() == s {
            seq![(slots.len() - 1) as u32]
        } else {
            Seq::empty()
        }
    }
}

/// Every index in a bucket is a valid position in the slot list.
pub proof fn lemma_bucket_in_range(slots: Seq<u32>, s: u32)
    ensures
        forall|j: int|
            0 <= j < bucket(slots, s).len() ==> (#[trigger] bucket(slots, s)[j] as int)
                < slots.len(),
    decreases slots.len(),
{
    if slots.len() > 0 {
        lemma_bucket_in_range(slots.drop_last(), s);
        assert forall|j: int| 0 <= j < bucket(slots, s).len() implies (#[trigger] bucket(
            slots,
            s,
        )[j] as int) < slots.len() by {
            if j < bucket(slots.drop_last(), s).len() {
                assert(bucket(slots, s)[j] == bucket(slots.drop_last(), s)[j]);
            }
        }
    }
}

/// Every index in a bucket carries that bucket's slot: a primitive holds
/// only vertices assigned to its material.
pub proof fn lemma_bucket_sound(slots: Seq<u32>, s: u32)
    requires
        slots.len() <= 0x1_0000_0000,
    ensures
        forall|j: int|
            0 <= j < bucket(slots, s).len() ==> slots[(#[trigger] bucket(slots, s)[j]) as int]
                == s,
    decreases slots.len(),
{
    if slots.len() > 0 {
        lemma_bucket_sound(slots.drop_last(), s);
        lemma_bucket_in_range(slots.drop_last(), s);
        assert forall|j: int| 0 <= j < bucket(slots, s).len() implies slots[(#[trigger] bucket(
            slots,
            s,
        )[j]) as int] == s by {
            if j < bucket(slots.drop_last(), s).len() {
                assert(bucket(slots, s)[j] == bucket(slots.drop_last(), s)[j]);
                assert(slots.drop_last()[bucket(slots.drop_last(), s)[j] as int] == s);
            }
        }
    }
}

/// Every vertex assigned to a slot appears in that slot's bucket: the
/// primitives together cover every assigned vertex.
pub proof fn lemma_bucket_complete(slots: Seq<u32>, k: int)
    requires
        0 <= k < slots.len(),
        slots.len() <= 0x1_0000_0000,
    ensures
        bucket(slots, slots[k]).contains(k as u32),
    decreases slots.len(),
{
    let s = slots[k];
    if k == slots.len() - 1 {
        assert(bucket(slots, s).last() == (slots.len() - 1) as u32);
    } else {
        lemma_bucket_complete(slots.drop_last(), k);
        let pre = bucket(slots.drop_last(), s);
        let j = choose|j: int| 0 <= j < pre.len() && pre[j] == k as u32;
        assert(bucket(slots, s)[j] == k as u32);
    }
}

/// The sequence `0, 1, .., count - 1`: the index buffer of a mesh with a
/// single primitive.
pub open spec fn identity_indices(count: int) -> Seq<u32> {
    Seq::new(count as nat, |i: int| i as u32)
}

/// Everything that must hold of a geometry object for assembly to succeed:
/// sound corner data, a complete and supported triangulation, a non-empty
/// output, and resolvable normal, UV and (when a material layer exists)
/// material lookups for every triangle vertex.
pub open spec fn assemble_ok(geo: GeometryObject, material_count: int) -> bool {
    &&& geo.vertices.all_corners_ok()
    &&& geo.vertices.polygon_vertices@.len() <= 0xFFFF_FFFF
    &&& triangulate_all_spec(geo.vertices, 0, 0) is Ok
    &&& {
        let tris = triangulate_all_spec(geo.vertices, 0, 0)->Ok_0.0;
        let polys = triangulate_all_spec(geo.vertices, 0, 0)->Ok_0.1;
        let count = tris.len() * 3int;
        &&& 0 < count <= 0xFFFF_FFFF
        &&& forall|tvi: int|
            0 <= tvi < count ==> (#[trigger] position_at(geo.vertices, tris, tvi)) is Ok
        &&& forall|tvi: int| 0 <= tvi < count ==> (#[trigger] normal_at(geo, tris, polys, tvi)) is Ok
        &&& forall|tvi: int| 0 <= tvi < count ==> (#[trigger] uv_at(geo, tris, polys, tvi)) is Ok
        &&& geo.layers.materials is Some ==> forall|tvi: int|
            0 <= tvi < count ==> (#[trigger] slot_at(geo, tris, polys, material_count, tvi)) is Ok
    }
}

/// What the assembled buffers hold when assembly succeeds.
pub open spec fn assembled_matches(geo: GeometryObject, material_count: int, mb: MeshBuffers) -> bool {
    let tris = triangulate_all_spec(geo.vertices, 0, 0)->Ok_0.0;
    let polys = triangulate_all_spec(geo.vertices, 0, 0)->Ok_0.1;
    let count = tris.len() * 3int;
    &&& mb.positions@.len() == count
    &&& mb.normals@.len() == count
    &&& mb.uvs@.len() == count
    &&& forall|tvi: int|
        0 <= tvi < count ==> (#[trigger] mb.positions@[tvi][0] as int, mb.positions@[tvi][1] as int,
        mb.positions@[tvi][2] as int) == position_at(geo.vertices, tris, tvi)->Ok_0
    &&& forall|tvi: int|
        0 <= tvi < count ==> #[trigger] mb.normals@[tvi] == normal_at(geo, tris, polys, tvi)->Ok_0
    &&& forall|tvi: int|
        0 <= tvi < count ==> (#[trigger] mb.uvs@[tvi][0] as int, mb.uvs@[tvi][1] as int) == uv_at(
            geo,
            tris,
            polys,
            tvi,
        )->Ok_0
    &&& match geo.layers.materials {
        Option::None => {
            &&& mb.primitives@.len() == 1
            &&& mb.primitives@[0].material_slot == 0
            &&& mb.primitives@[0].indices@ == identity_indices(count)
        },
        Option::Some(_) => {
            let slots = Seq::new(
                count as nat,
                |tvi: int| slot_at(geo, tris, polys, material_count, tvi)->Ok_0,
            );
            &&& mb.primitives@.len() == material_count
            &&& forall|s: int|
                0 <= s < material_count ==> (#[trigger] mb.primitives@[s]).material_slot == s
            &&& forall|s: int|
                0 <= s < material_count ==> (#[trigger] mb.primitives@[s]).indices@ == bucket(
                    slots,
                    s as u32,
                )
        },
    }
}

/// Which error a failed assembly reports: the error of the first stage
/// that fails, in pipeline order — corner validation, triangulation,
/// the buffer-length check, position expansion, the normal, UV and
/// material lookups.
pub open spec fn assemble_error_matches(geo: GeometryObject, material_count: int, e: FbxError) -> bool {
    let tri = triangulate_all_spec(geo.vertices, 0, 0);
    let tris = tri->Ok_0.0;
    let polys = tri->Ok_0.1;
    let count = tris.len() * 3int;
    &&& !geo.vertices.all_corners_ok() ==> e == FbxError::ControlPointOutOfRange
    &&& geo.vertices.all_corners_ok() && geo.vertices.polygon_vertices@.len() > 0xFFFF_FFFF ==> e
        == FbxError::NumericOverflow
    &&& geo.vertices.all_corners_ok() && geo.vertices.polygon_vertices@.len() <= 0xFFFF_FFFF
        && tri is Err ==> e == tri->Err_0
    &&& geo.vertices.all_corners_ok() && geo.vertices.polygon_vertices@.len() <= 0xFFFF_FFFF
        && tri is Ok ==> {
        &&& count == 0 ==> e == FbxError::MismatchedBufferLength
        &&& count > 0xFFFF_FFFF ==> e == FbxError::NumericOverflow
        &&& 0 < count <= 0xFFFF_FFFF ==> {
            &&& !(forall|tvi: int|
                0 <= tvi < count ==> (#[trigger] position_at(geo.vertices, tris, tvi)) is Ok)
                ==> e == FbxError::ControlPointOutOfRange
            &&& (forall|tvi: int|
                0 <= tvi < count ==> (#[trigger] position_at(geo.vertices, tris, tvi)) is Ok)
                ==> {
                &&& geo.layers.normals is None ==> e == FbxError::MissingLayerElement(
                    LayerKind::Normal,
                )
                &&& !(forall|tvi: int|
                    0 <= tvi < count ==> (#[trigger] normal_at(geo, tris, polys, tvi)) is Ok)
                    ==> (exists|tvi: int|
                    0 <= tvi < count && (#[trigger] normal_at(geo, tris, polys, tvi)) is Err && e
                        == normal_at(geo, tris, polys, tvi)->Err_0)
                &&& (forall|tvi: int|
                    0 <= tvi < count ==> (#[trigger] normal_at(geo, tris, polys, tvi)) is Ok)
                    ==> {
                    &&& geo.layers.uvs is None ==> e == FbxError::MissingLayerElement(
                        LayerKind::Uv,
                    )
                    &&& !(forall|tvi: int|
                        0 <= tvi < count ==> (#[trigger] uv_at(geo, tris, polys, tvi)) is Ok)
                        ==> (exists|tvi: int|
                        0 <= tvi < count && (#[trigger] uv_at(geo, tris, polys, tvi)) is Err && e
                            == uv_at(geo, tris, polys, tvi)->Err_0)
                    &&& (forall|tvi: int|
                        0 <= tvi < count ==> (#[trigger] uv_at(geo, tris, polys, tvi)) is Ok)
                        ==> {
                        &&& (exists|tvi: int|
                            0 <= tvi < count && (#[trigger] slot_at(
                                geo,
                                tris,
                                polys,
                                material_count,
                                tvi,
                            )) is Err && e == slot_at(geo, tris, polys, material_count, tvi)->Err_0)
                        &&& match geo.layers.materials {
                            Option::Some(ml) => (forall|tvi: int|
                                0 <= tvi < count ==> (#[trigger] ml.slot_spec(
                                    geo.vertices,
                                    tris,
                                    polys,
                                    tvi,
                                )) is Ok) ==> e == FbxError::MaterialIndexOutOfRange,
                            Option::None => true,
                        }
                    }
                }
            }
        }
    }
}

/// Assembles the vertex buffers and primitives of one geometry object.
///
/// `material_count` is the number of material slots the owning mesh object
/// references.  Succeeds exactly on the inputs `assemble_ok` describes, and
/// the produced buffers satisfy the length invariant and hold the expanded
/// attribute values.
pub fn assemble(geo: &GeometryObject, material_count: u32) -> (r: Result<MeshBuffers, FbxError>)
    ensures
        r is Ok <==> assemble_ok(*geo, material_count as int),
        r is Ok ==> assembled_matches(*geo, material_count as int, r->Ok_0) && r->Ok_0.well_formed(),
        r is Err ==> assemble_error_matches(*geo, material_count as int, r->Err_0),
{
    // Sound corner data and a bounded polygon-vertex array.
    match geo.vertices.validate() {
        Ok(()) => {},
        Err(e) => {
            return Err(e);
        },
    }
    if geo.vertices.polygon_vertices.len() > 0xFFFF_FFFFusize {
        return Err(FbxError::NumericOverflow);
    }
    // Triangulate every polygon.
    let tv: TriangleVertices = match triangulate_all(&geo.vertices) {
        Ok(tv) => tv,
        Err(e) => {
            return Err(e);
        },
    };
    let ghost tris = triangulate_all_spec(geo.vertices, 0, 0)->Ok_0.0;
    let ghost polys = triangulate_all_spec(geo.vertices, 0, 0)->Ok_0.1;
    let tri_count = tv.triangles.len();
    if tri_count == 0 {
        // An empty mesh has mismatched (all-empty) buffers by definition.
        assert(!assemble_ok(*geo, material_count as int));
        return Err(FbxError::MismatchedBufferLength);
    }
    if tri_count > (0xFFFF_FFFFusize / 3) {
        return Err(FbxError::NumericOverflow);
    }
    let count: usize = tri_count * 3;
    let ghost gcount = tris.len() * 3int;
    assert(count == gcount);

    // Expand positions per triangle-vertex occurrence.
    let mut positions: Vec<[i64; 3]> = Vec::new();
    let mut tvi: usize = 0;
    while tvi < count
        invariant
            0 <= tvi <= count,
            count == gcount,
            gcount == tris.len() * 3int,
            0 < count <= 0xFFFF_FFFF,
            geo.vertices.all_corners_ok(),
            geo.vertices.polygon_vertices@.len() <= 0xFFFF_FFFF,
            tv.triangles@ == tris,
            tv.polygon_indices@ == polys,
            tv.well_formed(),
            triangulate_all_spec(geo.vertices, 0, 0) == Ok::<(Seq<Triangle>, Seq<u32>), FbxError>(
                (tris, polys),
            ),
            positions@.len() == tvi,
            forall|j: int|
                0 <= j < tvi ==> (#[trigger] position_at(geo.vertices, tris, j)) is Ok && (
                positions@[j][0] as int,
                positions@[j][1] as int,
                positions@[j][2] as int,
                ) == position_at(geo.vertices, tris, j)->Ok_0,
        decreases count - tvi,
    {
        let pvi = tv.polygon_vertex_index(tvi);
        if (pvi as usize) >= geo.vertices.polygon_vertices.len() {
            assert(position_at(geo.vertices, tris, tvi as int) is Err);
            return Err(FbxError::ControlPointOutOfRange);
        }
        let cp = crate::geometry::decode_polygon_vertex(
            geo.vertices.polygon_vertices[pvi as usize],
        );
        if (cp as usize) >= geo.vertices.control_points.len() {
            assert(!geo.vertices.pvi_ok(pvi as int));
            assert(position_at(geo.vertices, tris, tvi as int) is Err);
            return Err(FbxError::ControlPointOutOfRange);
        }
        let p = geo.vertices.control_points[cp as usize];
        proof {
            assert(geo.vertices.pvi_ok(pvi as int));
            assert(position_at(geo.vertices, tris, tvi as int) == Ok::<(int, int, int), FbxError>(
                geo.vertices.position_of(pvi as int),
            ));
        }
        positions.push(p);
        tvi = tvi + 1;
    }

    // Reconstruct normals per occurrence.
    let normal_layer = match &geo.layers.normals {
        Option::Some(le) => le,
        Option::None => {
            assert(normal_at(*geo, tris, polys, 0) is Err);
            return Err(FbxError::MissingLayerElement(LayerKind::Normal));
        },
    };
    let mut normals: Vec<[i64; 3]> = Vec::new();
    let mut tvi: usize = 0;
    while tvi < count
        invariant
            0 <= tvi <= count,
            count == gcount,
            gcount == tris.len() * 3int,
            0 < count <= 0xFFFF_FFFF,
            geo.vertices.all_corners_ok(),
            geo.vertices.polygon_vertices@.len() <= 0xFFFF_FFFF,
            tv.triangles@ == tris,
            tv.polygon_indices@ == polys,
            tv.well_formed(),
            triangulate_all_spec(geo.vertices, 0, 0) == Ok::<(Seq<Triangle>, Seq<u32>), FbxError>(
                (tris, polys),
            ),
            geo.layers.normals == Option::Some(*normal_layer),
            forall|j: int|
                0 <= j < gcount ==> (#[trigger] position_at(geo.vertices, tris, j)) is Ok,
            normals@.len() == tvi,
            forall|j: int|
                0 <= j < tvi ==> (#[trigger] normal_at(*geo, tris, polys, j)) is Ok && normals@[j]
                    == normal_at(*geo, tris, polys, j)->Ok_0,
        decreases count - tvi,
    {
        match normal_layer.value_at(&geo.vertices, &tv, tvi) {
            Ok(v) => {
                normals.push(v);
            },
            Err(e) => {
                assert(normal_at(*geo, tris, polys, tvi as int) is Err);
                return Err(e);
            },
        }
        tvi = tvi + 1;
    }

    // Reconstruct UVs per occurrence, converting the UV space.
    let uv_layer = match &geo.layers.uvs {
        Option::Some(le) => le,
        Option::None => {
            assert(uv_at(*geo, tris, polys, 0) is Err);
            return Err(FbxError::MissingLayerElement(LayerKind::Uv));
        },
    };
    let mut uvs: Vec<[i64; 2]> = Vec::new();
    let mut tvi: usize = 0;
    while tvi < count
        invariant
            0 <= tvi <= count,
            count == gcount,
            gcount == tris.len() * 3int,
            0 < count <= 0xFFFF_FFFF,
            geo.vertices.all_corners_ok(),
            geo.vertices.polygon_vertices@.len() <= 0xFFFF_FFFF,
            tv.triangles@ == tris,
            tv.polygon_indices@ == polys,
            tv.well_formed(),
            triangulate_all_spec(geo.vertices, 0, 0) == Ok::<(Seq<Triangle>, Seq<u32>), FbxError>(
                (tris, polys),
            ),
            geo.layers.uvs == Option::Some(*uv_layer),
            geo.layers.normals is Some,
            forall|j: int|
                0 <= j < gcount ==> (#[trigger] position_at(geo.vertices, tris, j)) is Ok,
            forall|j: int|
                0 <= j < gcount ==> (#[trigger] normal_at(*geo, tris, polys, j)) is Ok,
            uvs@.len() == tvi,
            forall|j: int|
                0 <= j < tvi ==> (#[trigger] uv_at(*geo, tris, polys, j)) is Ok && (
                uvs@[j][0] as int,
                uvs@[j][1] as int,
                ) == uv_at(*geo, tris, polys, j)->Ok_0,
        decreases count - tvi,
    {
        match uv_layer.value_at(&geo.vertices, &tv, tvi) {
            Ok(raw) => {
                if raw[0] < -0x2000_0000 || raw[0] > 0x2000_0000 || raw[1] < -0x2000_0000 || raw[1]
                    > 0x2000_0000 {
                    assert(uv_at(*geo, tris, polys, tvi as int) is Err);
                    assert(uv_at(*geo, tris, polys, tvi as int)->Err_0 == FbxError::NumericOverflow);
                    return Err(FbxError::NumericOverflow);
                }
                let flipped = crate::layers::flip_uv(raw);
                uvs.push(flipped);
            },
            Err(e) => {
                assert(uv_at(*geo, tris, polys, tvi as int) is Err);
                assert(uv_at(*geo, tris, polys, tvi as int)->Err_0 == e);
                return Err(e);
            },
        }
        tvi = tvi + 1;
    }

    // Partition triangle vertices into primitives.
    let mut primitives: Vec<Primitive> = Vec::new();
    match &geo.layers.materials {
        Option::None => {
            // No material layer: a single primitive covering every vertex.
            let mut indices: Vec<u32> = Vec::new();
            let mut tvi: usize = 0;
            while tvi < count
                invariant
                    0 <= tvi <= count,
                    count <= 0xFFFF_FFFF,
                    indices@.len() == tvi,
                    forall|j: int| 0 <= j < tvi ==> #[trigger] indices@[j] == j as u32,
                decreases count - tvi,
            {
                indices.push(tvi as u32);
                tvi = tvi + 1;
            }
            proof {
                assert(indices@ =~= identity_indices(count as int));
            }
            primitives.push(Primitive { material_slot: 0, indices });
        },
        Option::Some(ml) => {
            // Read every vertex's slot, range-checked.
            let mut slots: Vec<u32> = Vec::new();
            let mut tvi: usize = 0;
            while tvi < count
                invariant
                    0 <= tvi <= count,
                    count == gcount,
                    gcount == tris.len() * 3int,
                    0 < count <= 0xFFFF_FFFF,
                    geo.vertices.all_corners_ok(),
                    geo.vertices.polygon_vertices@.len() <= 0xFFFF_FFFF,
                    tv.triangles@ == tris,
                    tv.polygon_indices@ == polys,
                    tv.well_formed(),
                    triangulate_all_spec(geo.vertices, 0, 0) == Ok::<
                        (Seq<Triangle>, Seq<u32>),
                        FbxError,
                    >((tris, polys)),
                    geo.layers.materials == Option::Some(*ml),
                    geo.layers.normals is Some,
                    geo.layers.uvs is Some,
                    forall|j: int|
                        0 <= j < gcount ==> (#[trigger] position_at(geo.vertices, tris, j)) is Ok,
                    forall|j: int|
                        0 <= j < gcount ==> (#[trigger] normal_at(*geo, tris, polys, j)) is Ok,
                    forall|j: int|
                        0 <= j < gcount ==> (#[trigger] uv_at(*geo, tris, polys, j)) is Ok,
                    slots@.len() == tvi,
                    forall|j: int|
                        0 <= j < tvi ==> (#[trigger] slot_at(
                            *geo,
                            tris,
                            polys,
                            material_count as int,
                            j,
                        )) is Ok && slots@[j] == slot_at(
                            *geo,
                            tris,
                            polys,
                            material_count as int,
                            j,
                        )->Ok_0,
                decreases count - tvi,
            {
                match ml.slot_at(&geo.vertices, &tv, tvi) {
                    Ok(s) => {
                        if s >= material_count {
                            assert(slot_at(*geo, tris, polys, material_count as int, tvi as int)
                                is Err);
                            assert(slot_at(
                                *geo,
                                tris,
                                polys,
                                material_count as int,
                                tvi as int,
                            )->Err_0 == FbxError::MaterialIndexOutOfRange);
                            return Err(FbxError::MaterialIndexOutOfRange);
                        }
                        slots.push(s);
                    },
                    Err(e) => {
                        assert(slot_at(*geo, tris, polys, material_count as int, tvi as int)
                            is Err);
                        assert(slot_at(
                            *geo,
                            tris,
                            polys,
                            material_count as int,
                            tvi as int,
                        )->Err_0 == e);
                        assert(ml.slot_spec(geo.vertices, tris, polys, tvi as int) is Err);
                        return Err(e);
                    },
                }
                tvi = tvi + 1;
            }
            let ghost gslots = Seq::new(
                gcount as nat,
                |j: int| slot_at(*geo, tris, polys, material_count as int, j)->Ok_0,
            );
            proof {
                assert(slots@ =~= gslots);
            }
            // One primitive per material slot, ascending, empty ones kept.
            let mut s: u32 = 0;
            while s < material_count
                invariant
                    0 <= s <= material_count,
                    slots@ == gslots,
                    slots@.len() == count,
                    count <= 0xFFFF_FFFF,
                    primitives@.len() == s,
                    forall|x: int|
                        0 <= x < s ==> (#[trigger] primitives@[x]).material_slot == x
                            && primitives@[x].indices@ == bucket(gslots, x as u32),
                decreases material_count - s,
            {
                let mut indices: Vec<u32> = Vec::new();
                proof {
                    assert(gslots.take(0) =~= Seq::<u32>::empty());
                }
                let mut tvi: usize = 0;
                while tvi < count
                    invariant
                        0 <= tvi <= count,
                        count <= 0xFFFF_FFFF,
                        slots@ == gslots,
                        slots@.len() == count,
                        indices@ == bucket(gslots.take(tvi as int), s),
                    decreases count - tvi,
                {
                    proof {
                        assert(gslots.take(tvi + 1).drop_last() =~= gslots.take(tvi as int));
                    }
                    if slots[tvi] == s {
                        indices.push(tvi as u32);
                        proof {
                            assert(indices@ =~= bucket(gslots.take(tvi as int), s) + seq![
                                tvi as u32,
                            ]);
                        }
                    }
                    tvi = tvi + 1;
                }
                proof {
                    assert(gslots.take(count as int) =~= gslots);
                }
                primitives.push(Primitive { material_slot: s, indices });
                s = s + 1;
            }
        },
    }

    let mb = MeshBuffers { positions, normals, uvs, primitives };
    proof {
        assert(assemble_ok(*geo, material_count as int));
        assert(assembled_matches(*geo, material_count as int, mb));
        assert forall|x: int| 0 <= x < mb.primitives@.len() implies #[trigger] prim_indices_valid(
            mb.primitives@[x],
            mb.positions@.len() as int,
        ) by {
            match geo.layers.materials {
                Option::None => {
                    assert(mb.primitives@[x].indices@ == identity_indices(gcount));
                },
                Option::Some(_) => {
                    let gslots = Seq::new(
                        gcount as nat,
                        |j: int| slot_at(*geo, tris, polys, material_count as int, j)->Ok_0,
                    );
                    lemma_bucket_in_range(gslots, x as u32);
                },
            }
        }
    }
    Ok(mb)
}

} // verus!
