//! Mesh assembly: buffer lengths, UV-space conversion, material
//! bucketing, and the assembly errors.

use fbx_scene::error::{FbxError, LayerKind};
use fbx_scene::fixed::FP_ONE;
use fbx_scene::geometry::PolygonVertices;
use fbx_scene::layers::{flip_uv, LayerElement, MappingMode, MaterialLayer, MeshLayers, ReferenceMode};
use fbx_scene::mesh::{assemble, GeometryObject};

fn unit_normals(n: usize) -> LayerElement<[i64; 3]> {
    LayerElement {
        mapping: MappingMode::ByPolygonVertex,
        reference: ReferenceMode::Direct,
        values: (0..n).map(|_| [0, 0, FP_ONE]).collect(),
        indices: Vec::new(),
    }
}

fn zero_uvs(n: usize) -> LayerElement<[i64; 2]> {
    LayerElement {
        mapping: MappingMode::ByPolygonVertex,
        reference: ReferenceMode::Direct,
        values: (0..n).map(|_| [0, 0]).collect(),
        indices: Vec::new(),
    }
}

fn triangle_geometry() -> PolygonVertices {
    PolygonVertices {
        control_points: vec![[0, 0, 0], [FP_ONE, 0, 0], [0, FP_ONE, 0]],
        polygon_vertices: vec![0, 1, !2],
    }
}

#[test]
fn buffers_share_one_length() {
    let geo = GeometryObject {
        vertices: triangle_geometry(),
        layers: MeshLayers {
            normals: Some(unit_normals(3)),
            uvs: Some(zero_uvs(3)),
            colors: None,
            materials: None,
        },
    };
    let mb = assemble(&geo, 0).unwrap();
    assert_eq!(mb.positions.len(), 3);
    assert_eq!(mb.normals.len(), 3);
    assert_eq!(mb.uvs.len(), 3);
    assert_eq!(mb.primitives.len(), 1);
    assert_eq!(mb.primitives[0].indices, vec![0, 1, 2]);
    assert_eq!(mb.positions[1], [FP_ONE, 0, 0]);
    assert_eq!(mb.normals[0], [0, 0, FP_ONE]);
    // The UV space flips vertically: a raw origin lands at the top.
    assert_eq!(mb.uvs[0], [0, FP_ONE]);
}

#[test]
fn missing_normal_layer_is_reported() {
    let geo = GeometryObject {
        vertices: triangle_geometry(),
        layers: MeshLayers {
            normals: None,
            uvs: Some(zero_uvs(3)),
            colors: None,
            materials: None,
        },
    };
    assert!(matches!(
        assemble(&geo, 0),
        Err(FbxError::MissingLayerElement(LayerKind::Normal))
    ));
}

#[test]
fn missing_uv_layer_is_reported() {
    let geo = GeometryObject {
        vertices: triangle_geometry(),
        layers: MeshLayers {
            normals: Some(unit_normals(3)),
            uvs: None,
            colors: None,
            materials: None,
        },
    };
    assert!(matches!(
        assemble(&geo, 0),
        Err(FbxError::MissingLayerElement(LayerKind::Uv))
    ));
}

#[test]
fn empty_geometry_has_mismatched_buffers() {
    let geo = GeometryObject {
        vertices: PolygonVertices { control_points: vec![], polygon_vertices: vec![] },
        layers: MeshLayers {
            normals: Some(unit_normals(0)),
            uvs: Some(zero_uvs(0)),
            colors: None,
            materials: None,
        },
    };
    assert!(matches!(assemble(&geo, 0), Err(FbxError::MismatchedBufferLength)));
}

#[test]
fn out_of_range_material_slot_is_an_error_not_an_index() {
    let geo = GeometryObject {
        vertices: triangle_geometry(),
        layers: MeshLayers {
            normals: Some(unit_normals(3)),
            uvs: Some(zero_uvs(3)),
            colors: None,
            materials: Some(MaterialLayer {
                mapping: MappingMode::AllSame,
                reference: ReferenceMode::IndexToDirect,
                indices: vec![5],
            }),
        },
    };
    assert!(matches!(assemble(&geo, 1), Err(FbxError::MaterialIndexOutOfRange)));
}

#[test]
fn negative_material_slot_is_reported() {
    let geo = GeometryObject {
        vertices: triangle_geometry(),
        layers: MeshLayers {
            normals: Some(unit_normals(3)),
            uvs: Some(zero_uvs(3)),
            colors: None,
            materials: Some(MaterialLayer {
                mapping: MappingMode::AllSame,
                reference: ReferenceMode::IndexToDirect,
                indices: vec![-1],
            }),
        },
    };
    assert!(matches!(assemble(&geo, 1), Err(FbxError::NegativeMaterialIndex)));
}

#[test]
fn material_slots_become_one_primitive_each() {
    // Two triangles assigned by polygon: slots 1 and 0.  Buckets come in
    // slot order and keep ascending vertex order; slot correspondence is
    // kept even though slot order and polygon order differ.
    let vertices = PolygonVertices {
        control_points: vec![
            [0, 0, 0],
            [4, 0, 0],
            [0, 4, 0],
            [8, 0, 0],
            [12, 0, 0],
            [8, 4, 0],
        ],
        polygon_vertices: vec![0, 1, !2, 3, 4, !5],
    };
    let geo = GeometryObject {
        vertices,
        layers: MeshLayers {
            normals: Some(unit_normals(6)),
            uvs: Some(zero_uvs(6)),
            colors: None,
            materials: Some(MaterialLayer {
                mapping: MappingMode::ByPolygon,
                reference: ReferenceMode::IndexToDirect,
                indices: vec![1, 0],
            }),
        },
    };
    let mb = assemble(&geo, 2).unwrap();
    assert_eq!(mb.primitives.len(), 2);
    assert_eq!(mb.primitives[0].material_slot, 0);
    assert_eq!(mb.primitives[0].indices, vec![3, 4, 5]);
    assert_eq!(mb.primitives[1].material_slot, 1);
    assert_eq!(mb.primitives[1].indices, vec![0, 1, 2]);
}

#[test]
fn empty_material_slot_keeps_its_primitive() {
    let geo = GeometryObject {
        vertices: triangle_geometry(),
        layers: MeshLayers {
            normals: Some(unit_normals(3)),
            uvs: Some(zero_uvs(3)),
            colors: None,
            materials: Some(MaterialLayer {
                mapping: MappingMode::AllSame,
                reference: ReferenceMode::IndexToDirect,
                indices: vec![1],
            }),
        },
    };
    let mb = assemble(&geo, 2).unwrap();
    assert_eq!(mb.primitives.len(), 2);
    assert_eq!(mb.primitives[0].material_slot, 0);
    assert!(mb.primitives[0].indices.is_empty());
    assert_eq!(mb.primitives[1].indices, vec![0, 1, 2]);
}

#[test]
fn by_control_point_layer_follows_shared_corners() {
    // Normals stored per control point: both triangles of a quad read
    // the shared corners' values.
    let vertices = PolygonVertices {
        control_points: vec![[0, 0, 0], [4, 0, 0], [4, 4, 0], [0, 4, 0]],
        polygon_vertices: vec![0, 1, 2, !3],
    };
    let geo = GeometryObject {
        vertices,
        layers: MeshLayers {
            normals: Some(LayerElement {
                mapping: MappingMode::ByControlPoint,
                reference: ReferenceMode::Direct,
                values: vec![[1, 0, 0], [2, 0, 0], [3, 0, 0], [4, 0, 0]],
                indices: Vec::new(),
            }),
            uvs: Some(zero_uvs(4)),
            colors: None,
            materials: None,
        },
    };
    let mb = assemble(&geo, 0).unwrap();
    // The convex quad splits into (0,1,2) and (2,3,0).
    assert_eq!(mb.normals[0], [1, 0, 0]);
    assert_eq!(mb.normals[1], [2, 0, 0]);
    assert_eq!(mb.normals[2], [3, 0, 0]);
    assert_eq!(mb.normals[3], [3, 0, 0]);
    assert_eq!(mb.normals[4], [4, 0, 0]);
    assert_eq!(mb.normals[5], [1, 0, 0]);
}

#[test]
fn uv_space_conversion_is_the_documented_formula() {
    assert_eq!(flip_uv([0, 0]), [0, FP_ONE]);
    assert_eq!(flip_uv([FP_ONE, FP_ONE]), [FP_ONE, 0]);
    // Converting twice gives the raw value back.
    assert_eq!(flip_uv(flip_uv([12345, 23456])), [12345, 23456]);
}
