//! Fixed-point arithmetic, matrix operations, and the transform
//! resolver's identity and inherit-type behavior.

use fbx_scene::error::FbxError;
use fbx_scene::fixed::{fp_div, fp_mul, int_sqrt, FP_ONE};
use fbx_scene::mat::{mat_mul, transform_vector, Mat4};
use fbx_scene::transform::{resolve, FbxTransform, InheritType, TransformInfo};

#[test]
fn fixed_point_products_are_exact() {
    // 1.5 * 2 == 3
    assert_eq!(fp_mul(3 * FP_ONE / 2, 2 * FP_ONE), Some(3 * FP_ONE));
    assert_eq!(fp_mul(-3 * FP_ONE / 2, 2 * FP_ONE), Some(-3 * FP_ONE));
    assert_eq!(fp_mul(0, i64::MAX), Some(0));
    // The product of the extremes leaves the representable range.
    assert_eq!(fp_mul(i64::MAX, i64::MAX), None);
}

#[test]
fn fixed_point_quotients_are_exact() {
    assert_eq!(fp_div(3 * FP_ONE, 2 * FP_ONE), Some(3 * FP_ONE / 2));
    assert_eq!(fp_div(FP_ONE, -2 * FP_ONE), Some(-FP_ONE / 2));
    assert_eq!(fp_div(FP_ONE, 0), None);
}

#[test]
fn integer_square_root_is_the_floor() {
    assert_eq!(int_sqrt(0), 0);
    assert_eq!(int_sqrt(1), 1);
    assert_eq!(int_sqrt(15), 3);
    assert_eq!(int_sqrt(16), 4);
    assert_eq!(int_sqrt(1 << 40), 1 << 20);
}

#[test]
fn matrix_product_respects_the_identity() {
    let id = Mat4::identity();
    let t = Mat4::from_translation([FP_ONE, 2 * FP_ONE, 3 * FP_ONE]);
    assert_eq!(mat_mul(&id, &t).unwrap().m, t.m);
    assert_eq!(mat_mul(&t, &id).unwrap().m, t.m);
}

#[test]
fn translations_compose_by_addition() {
    let a = Mat4::from_translation([FP_ONE, 0, 0]);
    let b = Mat4::from_translation([0, 2 * FP_ONE, 0]);
    let ab = mat_mul(&a, &b).unwrap();
    assert_eq!(ab.translation_part(), [FP_ONE, 2 * FP_ONE, 0]);
}

#[test]
fn vectors_transform_through_the_rotation_block() {
    let s = Mat4::from_scale([2 * FP_ONE, 3 * FP_ONE, FP_ONE]);
    let v = transform_vector(&s, [FP_ONE, FP_ONE, FP_ONE]).unwrap();
    assert_eq!(v, [2 * FP_ONE, 3 * FP_ONE, FP_ONE]);
}

#[test]
fn affine_inverse_undoes_a_translation() {
    let t = Mat4::from_translation([5 * FP_ONE, -3 * FP_ONE, FP_ONE]);
    let inv = t.affine_inverse().unwrap();
    assert_eq!(inv.translation_part(), [-5 * FP_ONE, 3 * FP_ONE, -FP_ONE]);
    let round = mat_mul(&t, &inv).unwrap();
    assert_eq!(round.m, Mat4::identity().m);
}

#[test]
fn decompose_recovers_translation_and_scale() {
    let t = Mat4::from_translation([7 * FP_ONE, 0, 0]);
    let s = Mat4::from_scale([2 * FP_ONE, 3 * FP_ONE, FP_ONE]);
    let m = mat_mul(&t, &s).unwrap();
    let lt = m.decompose().unwrap();
    assert_eq!(lt.translation, [7 * FP_ONE, 0, 0]);
    assert_eq!(lt.scale, [2 * FP_ONE, 3 * FP_ONE, FP_ONE]);
    assert_eq!(lt.rotation.m, Mat4::identity().m);
}

#[test]
fn zero_scale_fails_decomposition() {
    let s = Mat4::from_scale([0, FP_ONE, FP_ONE]);
    assert!(matches!(s.decompose(), Err(FbxError::DegenerateTransform)));
}

#[test]
fn identity_node_without_parent_resolves_to_the_identity() {
    let n = TransformInfo::identity();
    let t = resolve(&n, None).unwrap();
    assert_eq!(t.global.m, Mat4::identity().m);
    assert_eq!(t.rotation.m, Mat4::identity().m);
    assert_eq!(t.translation, [0, 0, 0]);
    assert_eq!(t.local_scale, [FP_ONE, FP_ONE, FP_ONE]);
}

#[test]
fn translation_only_node_lands_at_its_offset() {
    let mut n = TransformInfo::identity();
    n.translation = [3 * FP_ONE, 4 * FP_ONE, 5 * FP_ONE];
    let t = resolve(&n, None).unwrap();
    assert_eq!(t.global.translation_part(), [3 * FP_ONE, 4 * FP_ONE, 5 * FP_ONE]);
}

fn scaled_parent() -> FbxTransform {
    let mut p = TransformInfo::identity();
    p.local_scale = [2 * FP_ONE, 3 * FP_ONE, FP_ONE];
    resolve(&p, None).unwrap()
}

#[test]
fn inherit_type_selects_a_different_matrix() {
    // A child of a non-uniformly scaled parent: under the
    // no-local-scale-inherited variant the parent's local scale must not
    // reach the child's global, under the default variant it must.
    let parent = scaled_parent();
    let mut child = TransformInfo::identity();
    child.inherit_type = InheritType::Rrs;
    let t_rrs = resolve(&child, Some(&parent)).unwrap();
    child.inherit_type = InheritType::RrSs;
    let t_rrss = resolve(&child, Some(&parent)).unwrap();

    assert_ne!(t_rrs.global.m, t_rrss.global.m);
    // Excluding the parent's local scale cancels it, up to one unit of
    // the fixed-point reciprocal's rounding on the axis scaled by three.
    assert_eq!(
        t_rrs.global.m,
        [
            [FP_ONE, 0, 0, 0],
            [0, FP_ONE - 1, 0, 0],
            [0, 0, FP_ONE, 0],
            [0, 0, 0, FP_ONE],
        ]
    );
    assert_eq!(
        t_rrss.global.m,
        Mat4::from_scale([2 * FP_ONE, 3 * FP_ONE, FP_ONE]).m
    );
}

#[test]
fn parent_scale_stays_out_of_translation_propagation() {
    // The documented deviation: a child's translation moves through the
    // parent's rotation and translation only, never its scale.
    let parent = scaled_parent();
    let mut child = TransformInfo::identity();
    child.translation = [FP_ONE, FP_ONE, FP_ONE];
    let t = resolve(&child, Some(&parent)).unwrap();
    assert_eq!(t.global.translation_part(), [FP_ONE, FP_ONE, FP_ONE]);
}

#[test]
fn zero_parent_scale_degenerates() {
    let mut p = TransformInfo::identity();
    p.local_scale = [0, FP_ONE, FP_ONE];
    let parent = resolve(&p, None).unwrap();
    let child = TransformInfo::identity();
    assert!(matches!(
        resolve(&child, Some(&parent)),
        Err(FbxError::DegenerateTransform)
    ));
}

#[test]
fn inherit_type_decodes_the_documented_values() {
    assert_eq!(InheritType::try_from(0), Ok(InheritType::RrSs));
    assert_eq!(InheritType::try_from(1), Ok(InheritType::RSrs));
    assert_eq!(InheritType::try_from(2), Ok(InheritType::Rrs));
    assert_eq!(InheritType::try_from(7), Err(FbxError::InvalidPropertyValue));
}
