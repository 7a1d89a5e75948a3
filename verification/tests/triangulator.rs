//! Triangulator behavior: identity triangles, quad diagonal choice, fans,
//! and the rejected inputs.

use fbx_scene::error::FbxError;
use fbx_scene::geometry::{PolygonVertices, Triangle};
use fbx_scene::triangulate::{triangulate, triangulate_all};

fn polygon(points: Vec<[i64; 3]>) -> PolygonVertices {
    let n = points.len();
    let mut pv: Vec<i32> = Vec::new();
    for i in 0..n {
        if i + 1 == n {
            pv.push(!(i as i32));
        } else {
            pv.push(i as i32);
        }
    }
    PolygonVertices { control_points: points, polygon_vertices: pv }
}

fn corners(n: usize) -> Vec<u32> {
    (0..n as u32).collect()
}

fn tri(a: u32, b: u32, c: u32) -> Triangle {
    Triangle { a, b, c }
}

#[test]
fn triangle_passes_through() {
    let pv = polygon(vec![[0, 0, 0], [4, 0, 0], [0, 4, 0]]);
    let mut out: Vec<Triangle> = Vec::new();
    assert!(triangulate(&pv, &corners(3), &mut out).is_ok());
    assert_eq!(out, vec![tri(0, 1, 2)]);
}

#[test]
fn too_few_corners_is_invalid_polygon() {
    let pv = polygon(vec![[0, 0, 0], [4, 0, 0]]);
    let mut out: Vec<Triangle> = Vec::new();
    assert_eq!(
        triangulate(&pv, &vec![0u32, 1u32], &mut out),
        Err(FbxError::InvalidPolygon)
    );
    assert!(out.is_empty());
}

#[test]
fn convex_quad_splits_on_first_diagonal() {
    let pv = polygon(vec![[0, 0, 0], [1, 0, 0], [1, 1, 0], [0, 1, 0]]);
    let mut out: Vec<Triangle> = Vec::new();
    assert!(triangulate(&pv, &corners(4), &mut out).is_ok());
    assert_eq!(out, vec![tri(0, 1, 2), tri(2, 3, 0)]);
}

#[test]
fn concave_quad_splits_on_second_diagonal() {
    // Corner 1 points into the quad; the cut must run from corner 1 to
    // corner 3 so that no triangle leaves the face.
    let pv = polygon(vec![[0, 0, 0], [1, 1, 0], [2, 0, 0], [1, 3, 0]]);
    let mut out: Vec<Triangle> = Vec::new();
    assert!(triangulate(&pv, &corners(4), &mut out).is_ok());
    assert_eq!(out, vec![tri(0, 1, 3), tri(3, 1, 2)]);
}

#[test]
fn convex_pentagon_fans_from_first_corner() {
    let pv = polygon(vec![[0, 0, 0], [2, 0, 0], [3, 2, 0], [1, 4, 0], [-1, 2, 0]]);
    let mut out: Vec<Triangle> = Vec::new();
    assert!(triangulate(&pv, &corners(5), &mut out).is_ok());
    assert_eq!(out.len(), 3);
    assert_eq!(out, vec![tri(0, 1, 2), tri(0, 2, 3), tri(0, 3, 4)]);
}

#[test]
fn convex_hexagon_has_four_triangles_covering_every_corner() {
    let pv = polygon(vec![
        [0, 0, 0],
        [2, 0, 0],
        [3, 1, 0],
        [2, 2, 0],
        [0, 2, 0],
        [-1, 1, 0],
    ]);
    let mut out: Vec<Triangle> = Vec::new();
    assert!(triangulate(&pv, &corners(6), &mut out).is_ok());
    assert_eq!(out.len(), 4);
    for k in 0u32..6 {
        assert!(out.iter().any(|t| t.a == k || t.b == k || t.c == k));
    }
    for t in &out {
        assert!(t.a < 6 && t.b < 6 && t.c < 6);
    }
}

#[test]
fn single_concave_corner_becomes_the_fan_centre() {
    let pv = polygon(vec![[0, 0, 0], [2, 2, 0], [4, 0, 0], [4, 4, 0], [2, 3, 0]]);
    let mut out: Vec<Triangle> = Vec::new();
    assert!(triangulate(&pv, &corners(5), &mut out).is_ok());
    assert_eq!(out, vec![tri(1, 2, 3), tri(1, 3, 4), tri(1, 4, 0)]);
}

#[test]
fn doubly_concave_pentagon_is_unsupported() {
    // Two non-adjacent concave corners: ear clipping is not implemented.
    let pv = polygon(vec![[0, 0, 0], [2, 0, 0], [4, 0, 0], [4, 4, 0], [2, 1, 0]]);
    let mut out: Vec<Triangle> = Vec::new();
    assert_eq!(
        triangulate(&pv, &corners(5), &mut out),
        Err(FbxError::UnsupportedPolygon)
    );
    assert!(out.is_empty());
}

#[test]
fn triangulate_all_splits_polygons_and_numbers_them() {
    // Two triangles: corner runs 0..=2 and 3..=5, each closed by a
    // negated control-point index.
    let pv = PolygonVertices {
        control_points: vec![
            [0, 0, 0],
            [4, 0, 0],
            [0, 4, 0],
            [8, 0, 0],
            [12, 0, 0],
            [8, 4, 0],
        ],
        polygon_vertices: vec![0, 1, !2, 3, 4, !5],
    };
    let tv = triangulate_all(&pv).unwrap();
    assert_eq!(tv.triangles, vec![tri(0, 1, 2), tri(3, 4, 5)]);
    assert_eq!(tv.polygon_indices, vec![0, 1]);
}

#[test]
fn missing_end_marker_is_incomplete_polygon() {
    let pv = PolygonVertices {
        control_points: vec![[0, 0, 0], [4, 0, 0], [0, 4, 0]],
        polygon_vertices: vec![0, 1, 2],
    };
    assert!(matches!(
        triangulate_all(&pv),
        Err(FbxError::IncompletePolygon)
    ));
}
