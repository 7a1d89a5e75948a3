//! Transform resolver.
//!
//! FBX gives every node a flexible pivot/offset/inherit-type transform
//! model; a renderer wants one global matrix per node and a parent-relative
//! local transform.  The resolver composes, for one node, the documented
//! FBX formula: local rotation as the inverted product of pre, local and
//! post rotations (each built from negated Euler angles by the caller),
//! pivot and offset corrections around both the rotation and the scale
//! stage, the parent's rotation and shear/scale combined according to the
//! node's inherit type, and a translation propagated through the parent's
//! rotation and translation only — the parent's scale is deliberately
//! excluded from translation propagation.
//!
//! Each resolved node carries its global matrix together with the rotation,
//! translation and local-scale components that entered it; children consume
//! those components directly where the reference formulation re-derives
//! them by decomposing the parent matrix, for which they are the exact
//! ingredients.

use vstd::prelude::*;

use crate::error::FbxError;
use crate::fixed::{fits_i64, fp_div, fp_div_spec, FP_ONE};
use crate::mat::{
    fits_mat, mat_mul, sid, smul, sscaling, stranslation, stranslation_of, stranspose_rotation,
    stransform_vector, transform_vector, Mat4, MatS,
};

verus! {

/// How a child node's transform combines with its parent's rotation and
/// scale.
#[derive(Clone, Copy, Debug, PartialEq, Eq, Structural)]
pub enum InheritType {
    /// Parent rotation, child rotation, parent scale, child scale — the
    /// default.
    RrSs,
    /// Parent rotation, parent scale, child rotation, child scale.
    RSrs,
    /// Parent rotation, child rotation, child scale: the parent's local
    /// scale is not inherited, only its shear component.
    Rrs,
}

impl InheritType {
    /// Decodes the document's integer encoding of the inherit type.
    pub fn try_from(value: i32) -> (r: Result<InheritType, FbxError>)
        ensures
            value == 0 ==> r == Ok::<InheritType, FbxError>(InheritType::RrSs),
            value == 1 ==> r == Ok::<InheritType, FbxError>(InheritType::RSrs),
            value == 2 ==> r == Ok::<InheritType, FbxError>(InheritType::Rrs),
            !(0 <= value <= 2) ==> r == Err::<InheritType, FbxError>(
                FbxError::InvalidPropertyValue,
            ),
    {
        match value {
            0 => Ok(InheritType::RrSs),
            1 => Ok(InheritType::RSrs),
            2 => Ok(InheritType::Rrs),
            _ => Err(FbxError::InvalidPropertyValue),
        }
    }
}

/// The raw transform properties of one node, consumed once by the
/// resolver.  The three rotation fields hold rotation matrices built from
/// the node's Euler angles after negation — the inversion that completes
/// the FBX convention happens here, by transposition.
pub struct TransformInfo {
    pub rotation_pivot: [i64; 3],
    pub rotation_offset: [i64; 3],
    pub pre_rotation: Mat4,
    pub local_rotation: Mat4,
    pub post_rotation: Mat4,
    pub translation: [i64; 3],
    pub scaling_pivot: [i64; 3],
    pub scaling_offset: [i64; 3],
    pub local_scale: [i64; 3],
    pub inherit_type: InheritType,
}

impl TransformInfo {
    /// A node with no deltas: zero translation, pivots and offsets,
    /// identity rotations, unit scale, default inherit type.
    pub fn identity() -> (r: TransformInfo)
        ensures
            is_identity_info(r),
    {
        TransformInfo {
            rotation_pivot: [0, 0, 0],
            rotation_offset: [0, 0, 0],
            pre_rotation: Mat4::identity(),
            local_rotation: Mat4::identity(),
            post_rotation: Mat4::identity(),
            translation: [0, 0, 0],
            scaling_pivot: [0, 0, 0],
            scaling_offset: [0, 0, 0],
            local_scale: [FP_ONE, FP_ONE, FP_ONE],
            inherit_type: InheritType::RrSs,
        }
    }
}

/// Whether a node's transform properties are all at their no-op values.
pub open spec fn is_identity_info(n: TransformInfo) -> bool {
    &&& v3(n.rotation_pivot) == (0int, 0int, 0int)
    &&& v3(n.rotation_offset) == (0int, 0int, 0int)
    &&& n.pre_rotation.s() == sid()
    &&& n.local_rotation.s() == sid()
    &&& n.post_rotation.s() == sid()
    &&& v3(n.translation) == (0int, 0int, 0int)
    &&& v3(n.scaling_pivot) == (0int, 0int, 0int)
    &&& v3(n.scaling_offset) == (0int, 0int, 0int)
    &&& v3(n.local_scale) == (FP_ONE as int, FP_ONE as int, FP_ONE as int)
}

/// A resolved node: its global matrix with the components children need.
#[derive(Clone, Copy)]
pub struct FbxTransform {
    pub global: Mat4,
    pub rotation: Mat4,
    pub translation: [i64; 3],
    pub local_scale: [i64; 3],
}

impl FbxTransform {
    /// The resolved state a root inherits from: the identity everywhere.
    pub fn identity() -> (r: FbxTransform)
        ensures
            is_identity_parent(r),
    {
        FbxTransform {
            global: Mat4::identity(),
            rotation: Mat4::identity(),
            translation: [0, 0, 0],
            local_scale: [FP_ONE, FP_ONE, FP_ONE],
        }
    }
}

/// The integer-level image of a resolved state.
pub struct STrans {
    pub global: MatS,
    pub rotation: MatS,
    pub translation: (int, int, int),
    pub local_scale: (int, int, int),
}

impl FbxTransform {
    /// The integer-level image of this resolved state.
    pub open spec fn strans(self) -> STrans {
        STrans {
            global: self.global.s(),
            rotation: self.rotation.s(),
            translation: v3(self.translation),
            local_scale: v3(self.local_scale),
        }
    }
}

/// The identity resolved state.
pub open spec fn sid_trans() -> STrans {
    STrans {
        global: sid(),
        rotation: sid(),
        translation: (0int, 0int, 0int),
        local_scale: (FP_ONE as int, FP_ONE as int, FP_ONE as int),
    }
}

/// Whether a resolved state is the identity.
pub open spec fn is_identity_parent(p: FbxTransform) -> bool {
    p.strans() == sid_trans()
}

/// The integer image of a coordinate triple.
pub open spec fn v3(v: [i64; 3]) -> (int, int, int) {
    (v[0] as int, v[1] as int, v[2] as int)
}

/// Componentwise negation.
pub open spec fn sneg(v: (int, int, int)) -> (int, int, int) {
    (-v.0, -v.1, -v.2)
}

/// The node's composed local rotation before the post step:
/// `pre⁻¹ * local⁻¹`.
pub closed spec fn s_rot_a(n: TransformInfo) -> MatS {
    smul(stranspose_rotation(n.pre_rotation.s()), stranspose_rotation(n.local_rotation.s()))
}

/// The node's composed local rotation, `pre⁻¹ * local⁻¹ * post⁻¹`.
pub closed spec fn s_rot(n: TransformInfo) -> MatS {
    smul(s_rot_a(n), stranspose_rotation(n.post_rotation.s()))
}

/// First factor of the parent's shear/scale residue,
/// `parent_global * parent_rotation⁻¹`.
pub closed spec fn s_shear_a(p: STrans) -> MatS {
    smul(p.global, stranspose_rotation(p.rotation))
}

/// The parent's shear/scale residue: the global matrix with its rotation
/// and translation divided out.
pub closed spec fn s_shear(p: STrans) -> MatS {
    smul(s_shear_a(p), stranslation(sneg(p.translation)))
}

/// The inverse of the parent's local scale, as a scale matrix diagonal.
pub closed spec fn s_scale_inv_diag(p: STrans) -> (int, int, int) {
    (
        fp_div_spec(FP_ONE as int, p.local_scale.0),
        fp_div_spec(FP_ONE as int, p.local_scale.1),
        fp_div_spec(FP_ONE as int, p.local_scale.2),
    )
}

/// The parent's non-local scale: the shear residue with the parent's own
/// local scale divided out.
pub closed spec fn s_nonlocal(p: STrans) -> MatS {
    smul(s_shear(p), sscaling(s_scale_inv_diag(p)))
}

/// The node's local scale matrix.
pub closed spec fn s_sl(n: TransformInfo) -> MatS {
    sscaling(v3(n.local_scale))
}

/// First factor of the inherited rotation/scale product.
pub closed spec fn s_inherit_1(n: TransformInfo, p: STrans) -> MatS {
    match n.inherit_type {
        InheritType::RrSs => smul(p.rotation, s_rot(n)),
        InheritType::RSrs => smul(p.rotation, s_shear(p)),
        InheritType::Rrs => smul(p.rotation, s_rot(n)),
    }
}

/// Second factor of the inherited rotation/scale product.
pub closed spec fn s_inherit_2(n: TransformInfo, p: STrans) -> MatS {
    match n.inherit_type {
        InheritType::RrSs => smul(s_inherit_1(n, p), s_shear(p)),
        InheritType::RSrs => smul(s_inherit_1(n, p), s_rot(n)),
        InheritType::Rrs => smul(s_inherit_1(n, p), s_nonlocal(p)),
    }
}

/// The inherited rotation/scale of the node, by its inherit type.
pub closed spec fn s_inherited(n: TransformInfo, p: STrans) -> MatS {
    smul(s_inherit_2(n, p), s_sl(n))
}

/// First factor of a pivot/offset correction: `offset * pivot`.
pub closed spec fn s_wop_1(offset: (int, int, int), pivot: (int, int, int)) -> MatS {
    smul(stranslation(offset), stranslation(pivot))
}

/// Second factor of a pivot/offset correction.
pub closed spec fn s_wop_2(offset: (int, int, int), pivot: (int, int, int), m: MatS) -> MatS {
    smul(s_wop_1(offset, pivot), m)
}

/// A transform conjugated around its pivot and shifted by its offset:
/// `offset * pivot * m * pivot⁻¹`.
pub closed spec fn s_wop(offset: (int, int, int), pivot: (int, int, int), m: MatS) -> MatS {
    smul(s_wop_2(offset, pivot, m), stranslation(sneg(pivot)))
}

/// The rotation stage with its pivot/offset correction.
pub closed spec fn s_rot_wop(n: TransformInfo) -> MatS {
    s_wop(v3(n.rotation_offset), v3(n.rotation_pivot), s_rot(n))
}

/// The scale stage with its pivot/offset correction.
pub closed spec fn s_scale_wop(n: TransformInfo) -> MatS {
    s_wop(v3(n.scaling_offset), v3(n.scaling_pivot), s_sl(n))
}

/// First factor of the local translation chain.
pub closed spec fn s_trans_1(n: TransformInfo) -> MatS {
    smul(stranslation(v3(n.translation)), s_rot_wop(n))
}

/// The composed local translation chain.
pub closed spec fn s_trans_2(n: TransformInfo) -> MatS {
    smul(s_trans_1(n), s_scale_wop(n))
}

/// The node's local translation: the translation column of the chain.
pub closed spec fn s_local_translation(n: TransformInfo) -> (int, int, int) {
    stranslation_of(s_trans_2(n))
}

/// The parent's transform without its scale, `translation * rotation`:
/// what the local translation propagates through.
pub closed spec fn s_nonscale(p: STrans) -> MatS {
    smul(stranslation(p.translation), p.rotation)
}

/// The node's global translation.
pub closed spec fn s_global_translation(n: TransformInfo, p: STrans) -> (int, int, int) {
    stransform_vector(s_nonscale(p), s_local_translation(n))
}

/// The node's global matrix.
pub closed spec fn s_global(n: TransformInfo, p: STrans) -> MatS {
    smul(stranslation(s_global_translation(n, p)), s_inherited(n, p))
}

/// The node's carried global rotation, `parent_rotation * rotation`.
pub closed spec fn s_child_rotation(n: TransformInfo, p: STrans) -> MatS {
    smul(p.rotation, s_rot(n))
}

/// The rotation stage is representable.
pub closed spec fn rot_ok(n: TransformInfo) -> bool {
    fits_mat(s_rot_a(n)) && fits_mat(s_rot(n))
}

/// The parent's shear residue is representable.
pub closed spec fn shear_ok(p: STrans) -> bool {
    &&& fits_i64(-p.translation.0) && fits_i64(-p.translation.1) && fits_i64(-p.translation.2)
    &&& fits_mat(s_shear_a(p))
    &&& fits_mat(s_shear(p))
}

/// The parent's non-local scale is defined and representable.
pub closed spec fn nonlocal_ok(p: STrans) -> bool {
    &&& p.local_scale.0 != 0 && p.local_scale.1 != 0 && p.local_scale.2 != 0
    &&& fits_i64(s_scale_inv_diag(p).0) && fits_i64(s_scale_inv_diag(p).1) && fits_i64(
        s_scale_inv_diag(p).2,
    )
    &&& fits_mat(s_nonlocal(p))
}

/// The inherited rotation/scale is representable.
pub closed spec fn inherited_ok(n: TransformInfo, p: STrans) -> bool {
    fits_mat(s_inherit_1(n, p)) && fits_mat(s_inherit_2(n, p)) && fits_mat(s_inherited(n, p))
}

/// A pivot/offset correction is representable.
pub closed spec fn wop_ok(offset: (int, int, int), pivot: (int, int, int), m: MatS) -> bool {
    &&& fits_i64(sneg(pivot).0) && fits_i64(sneg(pivot).1) && fits_i64(sneg(pivot).2)
    &&& fits_mat(s_wop_1(offset, pivot))
    &&& fits_mat(s_wop_2(offset, pivot, m))
    &&& fits_mat(s_wop(offset, pivot, m))
}

/// The local translation chain is representable.
pub closed spec fn trans_ok(n: TransformInfo) -> bool {
    fits_mat(s_trans_1(n)) && fits_mat(s_trans_2(n))
}

/// The final assembly is representable.
pub closed spec fn final_ok(n: TransformInfo, p: STrans) -> bool {
    &&& fits_mat(s_nonscale(p))
    &&& fits_i64(s_global_translation(n, p).0) && fits_i64(s_global_translation(n, p).1)
        && fits_i64(s_global_translation(n, p).2)
    &&& fits_mat(s_global(n, p))
    &&& fits_mat(s_child_rotation(n, p))
}

/// When the resolution is defined and representable: non-zero parent
/// scale components, and every intermediate value inside `i64`.
pub closed spec fn resolve_ok(n: TransformInfo, p: STrans) -> bool {
    &&& rot_ok(n)
    &&& shear_ok(p)
    &&& nonlocal_ok(p)
    &&& inherited_ok(n, p)
    &&& wop_ok(v3(n.rotation_offset), v3(n.rotation_pivot), s_rot(n))
    &&& wop_ok(v3(n.scaling_offset), v3(n.scaling_pivot), s_sl(n))
    &&& trans_ok(n)
    &&& final_ok(n, p)
}

/// The parent's shear/scale residue written out: the global matrix with
/// the rotation transposed out and the translation subtracted.
pub proof fn lemma_shear_formula(p: STrans)
    ensures
        s_shear(p) == smul(
            smul(p.global, stranspose_rotation(p.rotation)),
            stranslation(sneg(p.translation)),
        ),
{
}

/// The parent's non-local scale written out: the shear residue with the
/// parent's own local scale divided out.
pub proof fn lemma_nonlocal_formula(p: STrans)
    ensures
        s_nonlocal(p) == smul(
            s_shear(p),
            sscaling(
                (
                    fp_div_spec(FP_ONE as int, p.local_scale.0),
                    fp_div_spec(FP_ONE as int, p.local_scale.1),
                    fp_div_spec(FP_ONE as int, p.local_scale.2),
                ),
            ),
        ),
{
}

/// The inherited rotation/scale product each inherit type selects:
/// choosing a different variant composes a different matrix.
pub proof fn lemma_inherited_formula(n: TransformInfo, p: STrans)
    ensures
        n.inherit_type == InheritType::RrSs ==> s_inherited(n, p) == smul(
            smul(smul(p.rotation, s_rot(n)), s_shear(p)),
            sscaling(v3(n.local_scale)),
        ),
        n.inherit_type == InheritType::RSrs ==> s_inherited(n, p) == smul(
            smul(smul(p.rotation, s_shear(p)), s_rot(n)),
            sscaling(v3(n.local_scale)),
        ),
        n.inherit_type == InheritType::Rrs ==> s_inherited(n, p) == smul(
            smul(smul(p.rotation, s_rot(n)), s_nonlocal(p)),
            sscaling(v3(n.local_scale)),
        ),
{
}

/// A node with zero translation, rotation and scale deltas, resolved
/// against no parent (the identity state), yields the identity matrix.
#[verifier::rlimit(60)]
pub proof fn lemma_resolve_identity(n: TransformInfo, p: STrans)
    requires
        is_identity_info(n),
        p == sid_trans(),
    ensures
        resolve_ok(n, p),
        s_global(n, p) == sid(),
        s_child_rotation(n, p) == sid(),
        s_global_translation(n, p) == (0int, 0int, 0int),
{
    assert(stranspose_rotation(sid()) == sid());
    assert(smul(sid(), sid()) == sid());
    assert(s_rot(n) == sid());
    assert(stranslation((0int, 0int, 0int)) == sid());
    assert(sneg((0int, 0int, 0int)) == (0int, 0int, 0int));
    assert(s_shear(p) == sid());
    assert(s_scale_inv_diag(p) == (FP_ONE as int, FP_ONE as int, FP_ONE as int));
    assert(sscaling((FP_ONE as int, FP_ONE as int, FP_ONE as int)) == sid());
    assert(s_nonlocal(p) == sid());
    assert(s_sl(n) == sid());
    assert(s_inherited(n, p) == sid());
    assert(s_rot_wop(n) == sid());
    assert(s_scale_wop(n) == sid());
    assert(s_trans_2(n) == sid());
    assert(s_local_translation(n) == (0int, 0int, 0int));
    assert(s_nonscale(p) == sid());
    assert(s_global_translation(n, p) == (0int, 0int, 0int));
    assert(s_global(n, p) == sid());
}

/// Negates a coordinate triple, or reports the one unrepresentable case.
fn neg3(v: [i64; 3]) -> (r: Result<[i64; 3], FbxError>)
    ensures
        r is Ok <==> fits_i64(-v3(v).0) && fits_i64(-v3(v).1) && fits_i64(-v3(v).2),
        r is Ok ==> v3(r->Ok_0) == sneg(v3(v)),
        r is Err ==> r->Err_0 == FbxError::NumericOverflow,
{
    if v[0] == i64::MIN || v[1] == i64::MIN || v[2] == i64::MIN {
        return Err(FbxError::NumericOverflow);
    }
    Ok([-v[0], -v[1], -v[2]])
}

/// The node's composed local rotation, rotations inverted by
/// transposition.
fn local_rotation_of(n: &TransformInfo) -> (r: Result<Mat4, FbxError>)
    ensures
        r is Ok <==> rot_ok(*n),
        r is Ok ==> r->Ok_0.s() == s_rot(*n),
        r is Err ==> r->Err_0 == FbxError::NumericOverflow,
{
    let pre_inv = n.pre_rotation.rotation_inverse();
    let local_inv = n.local_rotation.rotation_inverse();
    let post_inv = n.post_rotation.rotation_inverse();
    let rot_a = match mat_mul(&pre_inv, &local_inv) {
        Ok(m) => m,
        Err(e) => {
            return Err(e);
        },
    };
    match mat_mul(&rot_a, &post_inv) {
        Ok(m) => Ok(m),
        Err(e) => Err(e),
    }
}

/// The parent's shear/scale residue,
/// `parent_global * parent_rotation⁻¹ * parent_translation⁻¹`.
fn parent_shear(p: &FbxTransform) -> (r: Result<Mat4, FbxError>)
    ensures
        r is Ok <==> shear_ok(p.strans()),
        r is Ok ==> r->Ok_0.s() == s_shear(p.strans()),
        r is Err ==> r->Err_0 == FbxError::NumericOverflow,
{
    let par_rot_inv = p.rotation.rotation_inverse();
    let shear_a = match mat_mul(&p.global, &par_rot_inv) {
        Ok(m) => m,
        Err(e) => {
            return Err(e);
        },
    };
    let par_trans_neg = match neg3(p.translation) {
        Ok(v) => v,
        Err(e) => {
            return Err(e);
        },
    };
    match mat_mul(&shear_a, &Mat4::from_translation(par_trans_neg)) {
        Ok(m) => Ok(m),
        Err(e) => Err(e),
    }
}

/// The parent's non-local scale: the shear residue with the parent's own
/// local scale divided out.
fn parent_nonlocal(p: &FbxTransform, shear: &Mat4) -> (r: Result<Mat4, FbxError>)
    requires
        shear.s() == s_shear(p.strans()),
    ensures
        r is Ok <==> nonlocal_ok(p.strans()),
        r is Ok ==> r->Ok_0.s() == s_nonlocal(p.strans()),
        r is Err ==> (r->Err_0 == FbxError::NumericOverflow || r->Err_0
            == FbxError::DegenerateTransform),
{
    if p.local_scale[0] == 0 || p.local_scale[1] == 0 || p.local_scale[2] == 0 {
        return Err(FbxError::DegenerateTransform);
    }
    let inv_sx = match fp_div(FP_ONE, p.local_scale[0]) {
        Option::Some(v) => v,
        Option::None => {
            return Err(FbxError::NumericOverflow);
        },
    };
    let inv_sy = match fp_div(FP_ONE, p.local_scale[1]) {
        Option::Some(v) => v,
        Option::None => {
            return Err(FbxError::NumericOverflow);
        },
    };
    let inv_sz = match fp_div(FP_ONE, p.local_scale[2]) {
        Option::Some(v) => v,
        Option::None => {
            return Err(FbxError::NumericOverflow);
        },
    };
    match mat_mul(shear, &Mat4::from_scale([inv_sx, inv_sy, inv_sz])) {
        Ok(m) => Ok(m),
        Err(e) => Err(e),
    }
}

/// The inherited rotation/scale of the node, by its inherit type.
fn inherited_of(
    n: &TransformInfo,
    p: &FbxTransform,
    rot: &Mat4,
    shear: &Mat4,
    nonlocal: &Mat4,
) -> (r: Result<Mat4, FbxError>)
    requires
        rot.s() == s_rot(*n),
        shear.s() == s_shear(p.strans()),
        nonlocal.s() == s_nonlocal(p.strans()),
    ensures
        r is Ok <==> inherited_ok(*n, p.strans()),
        r is Ok ==> r->Ok_0.s() == s_inherited(*n, p.strans()),
        r is Err ==> r->Err_0 == FbxError::NumericOverflow,
{
    let scale_local = Mat4::from_scale(n.local_scale);
    let inherit_1 = match n.inherit_type {
        InheritType::RrSs => mat_mul(&p.rotation, rot),
        InheritType::RSrs => mat_mul(&p.rotation, shear),
        InheritType::Rrs => mat_mul(&p.rotation, rot),
    };
    let inherit_1 = match inherit_1 {
        Ok(m) => m,
        Err(e) => {
            return Err(e);
        },
    };
    let inherit_2 = match n.inherit_type {
        InheritType::RrSs => mat_mul(&inherit_1, shear),
        InheritType::RSrs => mat_mul(&inherit_1, rot),
        InheritType::Rrs => mat_mul(&inherit_1, nonlocal),
    };
    let inherit_2 = match inherit_2 {
        Ok(m) => m,
        Err(e) => {
            return Err(e);
        },
    };
    match mat_mul(&inherit_2, &scale_local) {
        Ok(m) => Ok(m),
        Err(e) => Err(e),
    }
}

/// A transform conjugated around its pivot and shifted by its offset.
fn wop_exec(offset: [i64; 3], pivot: [i64; 3], m: &Mat4) -> (r: Result<Mat4, FbxError>)
    ensures
        r is Ok <==> wop_ok(v3(offset), v3(pivot), m.s()),
        r is Ok ==> r->Ok_0.s() == s_wop(v3(offset), v3(pivot), m.s()),
        r is Err ==> r->Err_0 == FbxError::NumericOverflow,
{
    let piv_neg = match neg3(pivot) {
        Ok(v) => v,
        Err(e) => {
            return Err(e);
        },
    };
    let w1 = match mat_mul(&Mat4::from_translation(offset), &Mat4::from_translation(pivot)) {
        Ok(m) => m,
        Err(e) => {
            return Err(e);
        },
    };
    let w2 = match mat_mul(&w1, m) {
        Ok(m) => m,
        Err(e) => {
            return Err(e);
        },
    };
    match mat_mul(&w2, &Mat4::from_translation(piv_neg)) {
        Ok(m) => Ok(m),
        Err(e) => Err(e),
    }
}

/// The node's local translation: the translation column of
/// `translation * rotation_stage * scale_stage`.
fn local_translation_of(n: &TransformInfo, rot_wop: &Mat4, scale_wop: &Mat4) -> (r: Result<
    [i64; 3],
    FbxError,
>)
    requires
        rot_wop.s() == s_rot_wop(*n),
        scale_wop.s() == s_scale_wop(*n),
    ensures
        r is Ok <==> trans_ok(*n),
        r is Ok ==> v3(r->Ok_0) == s_local_translation(*n),
        r is Err ==> r->Err_0 == FbxError::NumericOverflow,
{
    let t1 = match mat_mul(&Mat4::from_translation(n.translation), rot_wop) {
        Ok(m) => m,
        Err(e) => {
            return Err(e);
        },
    };
    let t2 = match mat_mul(&t1, scale_wop) {
        Ok(m) => m,
        Err(e) => {
            return Err(e);
        },
    };
    Ok(t2.translation_part())
}

/// Resolves one node against its parent's resolved state (or none, for a
/// root): computes the global matrix by the FBX formula and carries the
/// components the node's children need.  Fails with
/// `DegenerateTransform` on a zero parent scale component, and with
/// `NumericOverflow` when an intermediate value leaves `i64`.
#[verifier::rlimit(100)]
pub fn resolve(n: &TransformInfo, parent: Option<&FbxTransform>) -> (r: Result<
    FbxTransform,
    FbxError,
>)
    ensures
        ({
            let p = match parent {
                Option::Some(p) => p.strans(),
                Option::None => sid_trans(),
            };
            &&& (r is Ok <==> resolve_ok(*n, p))
            &&& r is Ok ==> {
                let t = r->Ok_0;
                &&& t.global.s() == s_global(*n, p)
                &&& t.rotation.s() == s_child_rotation(*n, p)
                &&& v3(t.translation) == s_global_translation(*n, p)
                &&& t.local_scale == n.local_scale
            }
            &&& r is Err ==> (r->Err_0 == FbxError::NumericOverflow || r->Err_0
                == FbxError::DegenerateTransform)
        }),
{
    let par: FbxTransform = match parent {
        Option::Some(p) => *p,
        Option::None => FbxTransform::identity(),
    };
    proof {
        assert(par.strans() == match parent {
            Option::Some(p) => p.strans(),
            Option::None => sid_trans(),
        });
    }
    let rot = match local_rotation_of(n) {
        Ok(m) => m,
        Err(e) => {
            return Err(e);
        },
    };
    let shear = match parent_shear(&par) {
        Ok(m) => m,
        Err(e) => {
            return Err(e);
        },
    };
    let nonlocal = match parent_nonlocal(&par, &shear) {
        Ok(m) => m,
        Err(e) => {
            return Err(e);
        },
    };
    let inherited = match inherited_of(n, &par, &rot, &shear, &nonlocal) {
        Ok(m) => m,
        Err(e) => {
            return Err(e);
        },
    };
    let rot_wop = match wop_exec(n.rotation_offset, n.rotation_pivot, &rot) {
        Ok(m) => m,
        Err(e) => {
            return Err(e);
        },
    };
    let scale_wop = match wop_exec(n.scaling_offset, n.scaling_pivot, &Mat4::from_scale(
        n.local_scale,
    )) {
        Ok(m) => m,
        Err(e) => {
            return Err(e);
        },
    };
    let local_translation = match local_translation_of(n, &rot_wop, &scale_wop) {
        Ok(v) => v,
        Err(e) => {
            return Err(e);
        },
    };
    let nonscale = match mat_mul(&Mat4::from_translation(par.translation), &par.rotation) {
        Ok(m) => m,
        Err(e) => {
            return Err(e);
        },
    };
    let global_translation = match transform_vector(&nonscale, local_translation) {
        Ok(v) => v,
        Err(e) => {
            return Err(e);
        },
    };
    let global = match mat_mul(&Mat4::from_translation(global_translation), &inherited) {
        Ok(m) => m,
        Err(e) => {
            return Err(e);
        },
    };
    let child_rotation = match mat_mul(&par.rotation, &rot) {
        Ok(m) => m,
        Err(e) => {
            return Err(e);
        },
    };
    Ok(
        FbxTransform {
            global,
            rotation: child_rotation,
            translation: global_translation,
            local_scale: n.local_scale,
        },
    )
}

} // verus!
