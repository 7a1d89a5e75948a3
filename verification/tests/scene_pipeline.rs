//! Hierarchy pruning, material dedup and dispatch, labels, and the
//! end-to-end document load.

use fbx_scene::bbox::{BoundingBox3d, OptionalBoundingBox3d};
use fbx_scene::error::FbxError;
use fbx_scene::fixed::FP_ONE;
use fbx_scene::geometry::PolygonVertices;
use fbx_scene::hierarchy::{traverse_hierarchy, NodeTree, RawNode};
use fbx_scene::labels::{display_label, primitive_label, to_decimal};
use fbx_scene::layers::{LayerElement, MappingMode, MaterialLayer, MeshLayers, ReferenceMode};
use fbx_scene::material_loader::{
    default_loader_order, dispatch, try_load, AlphaMode, FbxMaterialLoaders, MaterialCache,
    MaterialProperties, ShadingModel, StrategyKind,
};
use fbx_scene::mesh::GeometryObject;
use fbx_scene::properties::{resolve_node_properties, AttributeValue, EnumLoader, RawNodeProperties, RotationOrder};
use fbx_scene::scene::{
    load_document, normalize_path, resolve_scale, resolve_texture_source, DocumentModel,
    MeshMaterial, MeshObject, TextureSource,
};
use fbx_scene::transform::TransformInfo;

fn plain_node(parent: Option<usize>, children: Vec<usize>, has_mesh: bool) -> RawNode {
    RawNode {
        id: 0,
        name: None,
        info: TransformInfo::identity(),
        has_mesh,
        parent,
        children,
    }
}

#[test]
fn helper_nodes_without_mesh_descendants_are_pruned() {
    // Root with two children: a helper without meshes anywhere below it,
    // and a mesh-bearing node.
    let tree = NodeTree {
        nodes: vec![
            plain_node(None, vec![1, 2], false),
            plain_node(Some(0), vec![], false),
            plain_node(Some(0), vec![], true),
        ],
    };
    let (out, errors) = traverse_hierarchy(&tree);
    assert!(errors.is_empty());
    assert!(out[0].is_some());
    assert!(out[1].is_none());
    assert!(out[2].is_some());
    // The retained root lists only its retained child.
    assert_eq!(out[0].as_ref().unwrap().children, vec![2]);
}

#[test]
fn mesh_bearing_grandchild_retains_the_whole_chain() {
    let tree = NodeTree {
        nodes: vec![
            plain_node(None, vec![1], false),
            plain_node(Some(0), vec![2], false),
            plain_node(Some(1), vec![], true),
        ],
    };
    let (out, errors) = traverse_hierarchy(&tree);
    assert!(errors.is_empty());
    assert!(out[0].is_some());
    assert!(out[1].is_some());
    assert!(out[2].is_some());
    assert_eq!(out[0].as_ref().unwrap().children, vec![1]);
    assert_eq!(out[1].as_ref().unwrap().children, vec![2]);
}

#[test]
fn meshless_tree_prunes_everything() {
    let tree = NodeTree {
        nodes: vec![plain_node(None, vec![1], false), plain_node(Some(0), vec![], false)],
    };
    let (out, errors) = traverse_hierarchy(&tree);
    assert!(errors.is_empty());
    assert!(out[0].is_none());
    assert!(out[1].is_none());
}

fn red_lambert() -> MaterialProperties {
    MaterialProperties {
        shading_model: Some(ShadingModel::Lambert),
        diffuse_color: Some([FP_ONE, 0, 0]),
        specular: None,
        shininess: None,
        transparent_texture: None,
        diffuse_texture: None,
        emissive_texture: None,
        normal_map_texture: None,
    }
}

#[test]
fn repeated_material_labels_reuse_the_first_result() {
    let loaders = default_loader_order();
    let mut cache = MaterialCache::new();
    let label = b"Material@Red".to_vec();
    let first = cache.material_for(&label, &red_lambert(), &loaders).unwrap();
    assert_eq!(cache.descriptions.len(), 1);
    // A second request with the same label returns the same handle and
    // leaves the store untouched: the chain did not run again.
    let second = cache.material_for(&label, &red_lambert(), &loaders).unwrap();
    assert_eq!(first, second);
    assert_eq!(cache.descriptions.len(), 1);
    // A different label is a fresh entry.
    let other = cache
        .material_for(&b"Material@Blue".to_vec(), &red_lambert(), &loaders)
        .unwrap();
    assert_ne!(other, first);
    assert_eq!(cache.descriptions.len(), 2);
}

#[test]
fn lambert_phong_strategy_declines_unknown_models() {
    let loaders = default_loader_order();
    let mut m = red_lambert();
    m.shading_model = Some(ShadingModel::Unknown);
    assert!(try_load(&loaders[0], &m).is_none());
    // The chain still succeeds through the fallback.
    let d = dispatch(&loaders, &m).unwrap();
    assert_eq!(d.base_color, [FP_ONE, 0, 0, FP_ONE]);
    assert_eq!(d.alpha_mode, AlphaMode::Opaque);
}

#[test]
fn default_loader_resource_holds_the_documented_chain() {
    let loaders = FbxMaterialLoaders::default();
    assert_eq!(loaders.0.len(), 2);
    assert_eq!(loaders.0[0].kind, StrategyKind::LambertPhong);
    assert_eq!(loaders.0[1].kind, StrategyKind::Fallback);
    assert_eq!(loaders.0[0].name, "LOAD_LAMBERT_PHONG");
    assert_eq!(loaders.0[1].name, "LOAD_FALLBACK");
    let d = dispatch(&loaders.0, &red_lambert()).unwrap();
    assert_eq!(d.base_color, [FP_ONE, 0, 0, FP_ONE]);
}

#[test]
fn empty_loader_chain_matches_nothing() {
    let loaders = Vec::new();
    assert!(matches!(
        dispatch(&loaders, &red_lambert()),
        Err(FbxError::NoLoaderMatched)
    ));
}

#[test]
fn transparent_texture_switches_to_blending() {
    let loaders = default_loader_order();
    let mut m = red_lambert();
    m.transparent_texture = Some(b"tex.png".to_vec());
    let d = dispatch(&loaders, &m).unwrap();
    assert_eq!(d.alpha_mode, AlphaMode::Blend);
    assert_eq!(d.base_color_texture, Some(b"tex.png".to_vec()));
    assert!(d.flip_normal_map_y);
    assert_eq!(loaders[0].kind, StrategyKind::LambertPhong);
}

#[test]
fn labels_follow_the_naming_scheme() {
    assert_eq!(to_decimal(0), b"0".to_vec());
    assert_eq!(to_decimal(12345), b"12345".to_vec());
    assert_eq!(display_label(Some(&b"Cube".to_vec()), 9), b"Cube".to_vec());
    assert_eq!(display_label(None, 9), b"9".to_vec());
    assert_eq!(display_label(Some(&Vec::new()), 7), b"7".to_vec());
    assert_eq!(primitive_label(&b"Cube".to_vec(), 2), b"Cube/Primitive2".to_vec());
}

#[test]
fn scale_resolution_prefers_the_override() {
    assert_eq!(resolve_scale(Some(3 * FP_ONE), Some(2 * FP_ONE)), 3 * FP_ONE);
    assert_eq!(resolve_scale(None, Some(2 * FP_ONE)), 2 * FP_ONE);
    assert_eq!(resolve_scale(None, None), FP_ONE);
}

#[test]
fn texture_sources_normalize_windows_paths() {
    let embedded = resolve_texture_source(true, &b"maps\\wood.png".to_vec());
    assert!(matches!(embedded, TextureSource::Embedded(ref n) if n == &b"maps\\wood.png".to_vec()));
    let external = resolve_texture_source(false, &b"maps\\wood.png".to_vec());
    assert!(matches!(external, TextureSource::External(ref p) if p == &b"maps/wood.png".to_vec()));
    assert_eq!(normalize_path(&b"a\\b\\c.png".to_vec()), b"a/b/c.png".to_vec());
}

#[test]
fn enum_properties_decode_their_first_attribute() {
    let loader = EnumLoader::new("RotationOrder");
    assert_eq!(loader.expecting(), "RotationOrder");
    assert_eq!(loader.load_raw(&vec![AttributeValue::I32(4)]), Ok(4));
    assert_eq!(
        loader.load_raw(&Vec::new()),
        Err(FbxError::MissingProperty)
    );
    assert_eq!(
        loader.load_raw(&vec![AttributeValue::I64(4)]),
        Err(FbxError::InvalidPropertyValue)
    );
    assert_eq!(RotationOrder::try_from(4), Ok(RotationOrder::ZXY));
    assert_eq!(RotationOrder::try_from(9), Err(FbxError::InvalidPropertyValue));
    assert_eq!(RotationOrder::default_order(), RotationOrder::XYZ);
}

#[test]
fn node_properties_resolve_with_documented_defaults() {
    let full = RawNodeProperties {
        rotation_pivot: Some([0, 0, 0]),
        rotation_offset: Some([0, 0, 0]),
        pre_rotation: Some(fbx_scene::mat::Mat4::identity()),
        local_rotation: Some(fbx_scene::mat::Mat4::identity()),
        post_rotation: Some(fbx_scene::mat::Mat4::identity()),
        translation: Some([FP_ONE, 0, 0]),
        scaling_pivot: Some([0, 0, 0]),
        scaling_offset: Some([0, 0, 0]),
        local_scale: Some([FP_ONE, FP_ONE, FP_ONE]),
        inherit_type: None,
    };
    let t = resolve_node_properties(&full).unwrap();
    assert_eq!(t.translation, [FP_ONE, 0, 0]);
    assert_eq!(t.inherit_type, fbx_scene::transform::InheritType::RrSs);

    let mut missing = full;
    missing.local_scale = None;
    assert!(matches!(
        resolve_node_properties(&missing),
        Err(FbxError::MissingProperty)
    ));
}

#[test]
fn failed_units_are_reported_under_their_labels() {
    // A mesh with no layers at all: its materials load, its geometry
    // fails, and the failure carries the mesh's label.
    let doc = DocumentModel {
        meshes: vec![MeshObject {
            id: 11,
            name: Some(b"Broken".to_vec()),
            geometry: GeometryObject {
                vertices: PolygonVertices {
                    control_points: vec![[0, 0, 0], [FP_ONE, 0, 0], [0, FP_ONE, 0]],
                    polygon_vertices: vec![0, 1, !2],
                },
                layers: MeshLayers { normals: None, uvs: None, colors: None, materials: None },
            },
            materials: vec![MeshMaterial {
                label: b"Material@Red".to_vec(),
                properties: red_lambert(),
            }],
        }],
        tree: NodeTree { nodes: vec![] },
        roots: vec![],
        document_scale: None,
    };
    let loaders = default_loader_order();
    let (scene, errors) = load_document(&doc, &loaders, None);
    // The material loaded despite the mesh failing.
    assert_eq!(scene.materials().len(), 1);
    assert!(scene.meshes.is_empty());
    assert_eq!(errors.len(), 1);
    assert_eq!(errors[0].label, b"Broken".to_vec());
    assert!(matches!(
        errors[0].error,
        FbxError::MissingLayerElement(fbx_scene::error::LayerKind::Normal)
    ));
}

#[test]
fn declined_materials_are_reported_under_their_labels() {
    // An empty loader chain declines everything: the reference fails
    // with its label, the rest of the document still loads.
    let doc = DocumentModel {
        meshes: vec![MeshObject {
            id: 3,
            name: None,
            geometry: GeometryObject {
                vertices: PolygonVertices { control_points: vec![], polygon_vertices: vec![] },
                layers: MeshLayers { normals: None, uvs: None, colors: None, materials: None },
            },
            materials: vec![MeshMaterial {
                label: b"Material@Odd".to_vec(),
                properties: red_lambert(),
            }],
        }],
        tree: NodeTree { nodes: vec![] },
        roots: vec![],
        document_scale: None,
    };
    let loaders = Vec::new();
    let (scene, errors) = load_document(&doc, &loaders, None);
    assert!(scene.materials().is_empty());
    assert_eq!(errors[0].label, b"Material@Odd".to_vec());
    assert!(matches!(errors[0].error, FbxError::NoLoaderMatched));
}

#[test]
fn unresolvable_nodes_are_reported_under_their_labels() {
    // A parent with a zero scale component: its child cannot resolve and
    // the failure carries the child's label.
    let mut parent_info = TransformInfo::identity();
    parent_info.local_scale = [0, FP_ONE, FP_ONE];
    let tree = NodeTree {
        nodes: vec![
            RawNode {
                id: 1,
                name: None,
                info: parent_info,
                has_mesh: true,
                parent: None,
                children: vec![1],
            },
            RawNode {
                id: 2,
                name: Some(b"Child".to_vec()),
                info: TransformInfo::identity(),
                has_mesh: true,
                parent: Some(0),
                children: vec![],
            },
        ],
    };
    let (out, errors) = traverse_hierarchy(&tree);
    // The child cannot resolve against the degenerate parent, and the
    // parent's own zero-scaled global cannot be decomposed: both are
    // dropped and both failures carry their labels.
    assert!(out[0].is_none());
    assert!(out[1].is_none());
    assert!(errors.iter().any(|e| e.label == b"Child".to_vec()
        && matches!(e.error, FbxError::DegenerateTransform)));
    assert!(errors.iter().any(|e| e.label == b"1".to_vec()));
}

#[test]
fn single_triangle_document_loads_end_to_end() {
    let geometry = GeometryObject {
        vertices: PolygonVertices {
            control_points: vec![[0, 0, 0], [FP_ONE, 0, 0], [0, FP_ONE, 0]],
            polygon_vertices: vec![0, 1, !2],
        },
        layers: MeshLayers {
            normals: Some(LayerElement {
                mapping: MappingMode::ByPolygonVertex,
                reference: ReferenceMode::Direct,
                values: vec![[0, 0, FP_ONE], [0, 0, FP_ONE], [0, 0, FP_ONE]],
                indices: Vec::new(),
            }),
            uvs: Some(LayerElement {
                mapping: MappingMode::ByPolygonVertex,
                reference: ReferenceMode::Direct,
                values: vec![[0, 0], [FP_ONE, 0], [0, FP_ONE]],
                indices: Vec::new(),
            }),
            colors: None,
            materials: Some(MaterialLayer {
                mapping: MappingMode::AllSame,
                reference: ReferenceMode::IndexToDirect,
                indices: vec![0],
            }),
        },
    };
    let doc = DocumentModel {
        meshes: vec![MeshObject {
            id: 7,
            name: None,
            geometry,
            materials: vec![MeshMaterial { label: b"Material@Red".to_vec(), properties: red_lambert() }],
        }],
        tree: NodeTree {
            nodes: vec![RawNode {
                id: 7,
                name: None,
                info: TransformInfo::identity(),
                has_mesh: true,
                parent: None,
                children: vec![],
            }],
        },
        roots: vec![0],
        document_scale: None,
    };
    let loaders = default_loader_order();
    let (scene, errors) = load_document(&doc, &loaders, None);
    assert!(errors.is_empty());
    assert_eq!(scene.scale, FP_ONE);
    assert_eq!(scene.roots, vec![0]);
    assert!(scene.hierarchy[0].is_some());
    // One mesh, three vertices, one primitive with one triangle.
    assert_eq!(scene.meshes.len(), 1);
    assert_eq!(scene.meshes[0].0, b"7".to_vec());
    let mb = &scene.meshes[0].1;
    assert_eq!(mb.positions.len(), 3);
    assert_eq!(mb.normals.len(), 3);
    assert_eq!(mb.uvs.len(), 3);
    assert_eq!(mb.primitives.len(), 1);
    assert_eq!(mb.primitives[0].indices, vec![0, 1, 2]);
    // One material: the red diffuse through the Lambert adapter, with
    // full alpha.
    assert_eq!(scene.materials().len(), 1);
    let mat = scene.material(0).unwrap();
    assert_eq!(mat.base_color, [FP_ONE, 0, 0, FP_ONE]);
    // The identity root keeps an identity local transform.
    let root = scene.hierarchy[0].as_ref().unwrap();
    assert_eq!(root.local.translation, [0, 0, 0]);
    assert_eq!(root.local.scale, [FP_ONE, FP_ONE, FP_ONE]);
}

#[test]
fn bounding_boxes_track_inserted_points() {
    let b = BoundingBox3d::from_point([1, 2, 3]);
    let b = b.insert([-1, 5, 3]);
    assert_eq!(b.min(), [-1, 2, 3]);
    assert_eq!(b.max(), [1, 5, 3]);
    assert_eq!(b.size(), Some([2, 3, 0]));
    let u = b.union(&BoundingBox3d::from_point([10, 0, 0]));
    assert_eq!(u.max(), [10, 5, 3]);
    let empty = OptionalBoundingBox3d::new();
    assert!(empty.bounding_box().is_none());
    let seeded = empty.insert([4, 4, 4]);
    assert_eq!(seeded.bounding_box().unwrap().min(), [4, 4, 4]);
}
