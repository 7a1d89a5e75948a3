//! Fixed-point 4x4 matrices, row-major, acting on column vectors.
//!
//! The specification works over unbounded integers: `MatS` is the
//! mathematical image of a matrix, and every operation has a total
//! integer-level definition.  Executable operations compute the same values
//! exactly in wide intermediates and report `NumericOverflow` instead of
//! wrapping when an entry would leave `i64`.

use vstd::prelude::*;

use crate::error::FbxError;
use crate::fixed::{fits_i64, fp_div_spec, fp_mul_spec, fp_term, fp_term_small, fp_term_wide, fp_div_wide, int_sqrt, sqrt_floor, FP_ONE};

verus! {

/// Largest entry magnitude accepted by determinant-based operations
/// (inversion, decomposition): keeps their triple products inside `i128`.
pub const MAT_LIMIT: i64 = 0x4000_0000_0000;

/// A 4x4 fixed-point matrix; `m[r][c]` is row `r`, column `c`.
#[derive(Clone, Copy, Debug)]
pub struct Mat4 {
    pub m: [[i64; 4]; 4],
}

/// The integer-level image of a matrix.
pub struct MatS {
    pub e00: int,
    pub e01: int,
    pub e02: int,
    pub e03: int,
    pub e10: int,
    pub e11: int,
    pub e12: int,
    pub e13: int,
    pub e20: int,
    pub e21: int,
    pub e22: int,
    pub e23: int,
    pub e30: int,
    pub e31: int,
    pub e32: int,
    pub e33: int,
}

impl Mat4 {
    /// The integer-level image of this matrix.
    pub open spec fn s(self) -> MatS {
        MatS {
            e00: self.m[0][0] as int,
            e01: self.m[0][1] as int,
            e02: self.m[0][2] as int,
            e03: self.m[0][3] as int,
            e10: self.m[1][0] as int,
            e11: self.m[1][1] as int,
            e12: self.m[1][2] as int,
            e13: self.m[1][3] as int,
            e20: self.m[2][0] as int,
            e21: self.m[2][1] as int,
            e22: self.m[2][2] as int,
            e23: self.m[2][3] as int,
            e30: self.m[3][0] as int,
            e31: self.m[3][1] as int,
            e32: self.m[3][2] as int,
            e33: self.m[3][3] as int,
        }
    }
}

/// The identity matrix.
pub open spec fn sid() -> MatS {
    MatS {
        e00: FP_ONE as int,
        e01: 0,
        e02: 0,
        e03: 0,
        e10: 0,
        e11: FP_ONE as int,
        e12: 0,
        e13: 0,
        e20: 0,
        e21: 0,
        e22: FP_ONE as int,
        e23: 0,
        e30: 0,
        e31: 0,
        e32: 0,
        e33: FP_ONE as int,
    }
}

/// The fixed-point matrix product.
pub open spec fn smul(a: MatS, b: MatS) -> MatS {
    MatS {
        e00: fp_mul_spec(a.e00, b.e00) + fp_mul_spec(a.e01, b.e10) + fp_mul_spec(a.e02, b.e20) + fp_mul_spec(a.e03, b.e30),
        e01: fp_mul_spec(a.e00, b.e01) + fp_mul_spec(a.e01, b.e11) + fp_mul_spec(a.e02, b.e21) + fp_mul_spec(a.e03, b.e31),
        e02: fp_mul_spec(a.e00, b.e02) + fp_mul_spec(a.e01, b.e12) + fp_mul_spec(a.e02, b.e22) + fp_mul_spec(a.e03, b.e32),
        e03: fp_mul_spec(a.e00, b.e03) + fp_mul_spec(a.e01, b.e13) + fp_mul_spec(a.e02, b.e23) + fp_mul_spec(a.e03, b.e33),
        e10: fp_mul_spec(a.e10, b.e00) + fp_mul_spec(a.e11, b.e10) + fp_mul_spec(a.e12, b.e20) + fp_mul_spec(a.e13, b.e30),
        e11: fp_mul_spec(a.e10, b.e01) + fp_mul_spec(a.e11, b.e11) + fp_mul_spec(a.e12, b.e21) + fp_mul_spec(a.e13, b.e31),
        e12: fp_mul_spec(a.e10, b.e02) + fp_mul_spec(a.e11, b.e12) + fp_mul_spec(a.e12, b.e22) + fp_mul_spec(a.e13, b.e32),
        e13: fp_mul_spec(a.e10, b.e03) + fp_mul_spec(a.e11, b.e13) + fp_mul_spec(a.e12, b.e23) + fp_mul_spec(a.e13, b.e33),
        e20: fp_mul_spec(a.e20, b.e00) + fp_mul_spec(a.e21, b.e10) + fp_mul_spec(a.e22, b.e20) + fp_mul_spec(a.e23, b.e30),
        e21: fp_mul_spec(a.e20, b.e01) + fp_mul_spec(a.e21, b.e11) + fp_mul_spec(a.e22, b.e21) + fp_mul_spec(a.e23, b.e31),
        e22: fp_mul_spec(a.e20, b.e02) + fp_mul_spec(a.e21, b.e12) + fp_mul_spec(a.e22, b.e22) + fp_mul_spec(a.e23, b.e32),
        e23: fp_mul_spec(a.e20, b.e03) + fp_mul_spec(a.e21, b.e13) + fp_mul_spec(a.e22, b.e23) + fp_mul_spec(a.e23, b.e33),
        e30: fp_mul_spec(a.e30, b.e00) + fp_mul_spec(a.e31, b.e10) + fp_mul_spec(a.e32, b.e20) + fp_mul_spec(a.e33, b.e30),
        e31: fp_mul_spec(a.e30, b.e01) + fp_mul_spec(a.e31, b.e11) + fp_mul_spec(a.e32, b.e21) + fp_mul_spec(a.e33, b.e31),
        e32: fp_mul_spec(a.e30, b.e02) + fp_mul_spec(a.e31, b.e12) + fp_mul_spec(a.e32, b.e22) + fp_mul_spec(a.e33, b.e32),
        e33: fp_mul_spec(a.e30, b.e03) + fp_mul_spec(a.e31, b.e13) + fp_mul_spec(a.e32, b.e23) + fp_mul_spec(a.e33, b.e33),
    }
}

/// The inverse of a rotation matrix: the transpose of its upper 3x3
/// block, the rest unchanged.
pub open spec fn stranspose_rotation(a: MatS) -> MatS {
    MatS {
        e00: a.e00,
        e01: a.e10,
        e02: a.e20,
        e03: a.e03,
        e10: a.e01,
        e11: a.e11,
        e12: a.e21,
        e13: a.e13,
        e20: a.e02,
        e21: a.e12,
        e22: a.e22,
        e23: a.e23,
        e30: a.e30,
        e31: a.e31,
        e32: a.e32,
        e33: a.e33,
    }
}

/// The translation matrix moving the origin by `v`.
pub open spec fn stranslation(v: (int, int, int)) -> MatS {
    MatS {
        e00: FP_ONE as int,
        e01: 0,
        e02: 0,
        e03: v.0,
        e10: 0,
        e11: FP_ONE as int,
        e12: 0,
        e13: v.1,
        e20: 0,
        e21: 0,
        e22: FP_ONE as int,
        e23: v.2,
        e30: 0,
        e31: 0,
        e32: 0,
        e33: FP_ONE as int,
    }
}

/// The scale matrix with diagonal `v`.
pub open spec fn sscaling(v: (int, int, int)) -> MatS {
    MatS {
        e00: v.0,
        e01: 0,
        e02: 0,
        e03: 0,
        e10: 0,
        e11: v.1,
        e12: 0,
        e13: 0,
        e20: 0,
        e21: 0,
        e22: v.2,
        e23: 0,
        e30: 0,
        e31: 0,
        e32: 0,
        e33: FP_ONE as int,
    }
}

/// Whether every entry fits the `i64` range.
pub open spec fn fits_mat(a: MatS) -> bool {
    &&& fits_i64(a.e00)
    &&& fits_i64(a.e01)
    &&& fits_i64(a.e02)
    &&& fits_i64(a.e03)
    &&& fits_i64(a.e10)
    &&& fits_i64(a.e11)
    &&& fits_i64(a.e12)
    &&& fits_i64(a.e13)
    &&& fits_i64(a.e20)
    &&& fits_i64(a.e21)
    &&& fits_i64(a.e22)
    &&& fits_i64(a.e23)
    &&& fits_i64(a.e30)
    &&& fits_i64(a.e31)
    &&& fits_i64(a.e32)
    &&& fits_i64(a.e33)
}

/// Whether every entry's magnitude stays within `MAT_LIMIT`.
pub open spec fn bounded_mat(a: MatS) -> bool {
    &&& -MAT_LIMIT <= a.e00 <= MAT_LIMIT
    &&& -MAT_LIMIT <= a.e01 <= MAT_LIMIT
    &&& -MAT_LIMIT <= a.e02 <= MAT_LIMIT
    &&& -MAT_LIMIT <= a.e03 <= MAT_LIMIT
    &&& -MAT_LIMIT <= a.e10 <= MAT_LIMIT
    &&& -MAT_LIMIT <= a.e11 <= MAT_LIMIT
    &&& -MAT_LIMIT <= a.e12 <= MAT_LIMIT
    &&& -MAT_LIMIT <= a.e13 <= MAT_LIMIT
    &&& -MAT_LIMIT <= a.e20 <= MAT_LIMIT
    &&& -MAT_LIMIT <= a.e21 <= MAT_LIMIT
    &&& -MAT_LIMIT <= a.e22 <= MAT_LIMIT
    &&& -MAT_LIMIT <= a.e23 <= MAT_LIMIT
    &&& -MAT_LIMIT <= a.e30 <= MAT_LIMIT
    &&& -MAT_LIMIT <= a.e31 <= MAT_LIMIT
    &&& -MAT_LIMIT <= a.e32 <= MAT_LIMIT
    &&& -MAT_LIMIT <= a.e33 <= MAT_LIMIT
}

/// Applies the rotation/scale block to a vector, ignoring translation.
pub open spec fn stransform_vector(a: MatS, v: (int, int, int)) -> (int, int, int) {
    (
        fp_mul_spec(a.e00, v.0) + fp_mul_spec(a.e01, v.1) + fp_mul_spec(a.e02, v.2),
        fp_mul_spec(a.e10, v.0) + fp_mul_spec(a.e11, v.1) + fp_mul_spec(a.e12, v.2),
        fp_mul_spec(a.e20, v.0) + fp_mul_spec(a.e21, v.1) + fp_mul_spec(a.e22, v.2),
    )
}

/// The translation column of an affine matrix.
pub open spec fn stranslation_of(a: MatS) -> (int, int, int) {
    (a.e03, a.e13, a.e23)
}

impl Mat4 {
    /// The identity transform.
    pub fn identity() -> (r: Mat4)
        ensures
            r.s() == sid(),
    {
        Mat4 {
            m: [
                [FP_ONE, 0, 0, 0],
                [0, FP_ONE, 0, 0],
                [0, 0, FP_ONE, 0],
                [0, 0, 0, FP_ONE],
            ],
        }
    }

    /// The translation matrix moving the origin by `v`.
    pub fn from_translation(v: [i64; 3]) -> (r: Mat4)
        ensures
            r.s() == stranslation((v[0] as int, v[1] as int, v[2] as int)),
    {
        Mat4 {
            m: [
                [FP_ONE, 0, 0, v[0]],
                [0, FP_ONE, 0, v[1]],
                [0, 0, FP_ONE, v[2]],
                [0, 0, 0, FP_ONE],
            ],
        }
    }

    /// The scale matrix with diagonal `v`.
    pub fn from_scale(v: [i64; 3]) -> (r: Mat4)
        ensures
            r.s() == sscaling((v[0] as int, v[1] as int, v[2] as int)),
    {
        Mat4 {
            m: [
                [v[0], 0, 0, 0],
                [0, v[1], 0, 0],
                [0, 0, v[2], 0],
                [0, 0, 0, FP_ONE],
            ],
        }
    }

    /// The inverse of a rotation matrix, by transposition.
    pub fn rotation_inverse(&self) -> (r: Mat4)
        ensures
            r.s() == stranspose_rotation(self.s()),
    {
        let m = &self.m;
        Mat4 {
            m: [
                [m[0][0], m[1][0], m[2][0], m[0][3]],
                [m[0][1], m[1][1], m[2][1], m[1][3]],
                [m[0][2], m[1][2], m[2][2], m[2][3]],
                [m[3][0], m[3][1], m[3][2], m[3][3]],
            ],
        }
    }

    /// The translation column.
    pub fn translation_part(&self) -> (r: [i64; 3])
        ensures
            (r[0] as int, r[1] as int, r[2] as int) == stranslation_of(self.s()),
    {
        [self.m[0][3], self.m[1][3], self.m[2][3]]
    }
}

/// Multiplies two matrices; `NumericOverflow` exactly when an entry of
/// the true product leaves `i64`.
pub fn mat_mul(a: &Mat4, b: &Mat4) -> (r: Result<Mat4, FbxError>)
    ensures
        r is Ok <==> fits_mat(smul(a.s(), b.s())),
        r is Ok ==> r->Ok_0.s() == smul(a.s(), b.s()),
        r is Err ==> r->Err_0 == FbxError::NumericOverflow,
{
    let e00: i128 = fp_term(a.m[0][0], b.m[0][0]) + fp_term(a.m[0][1], b.m[1][0]) + fp_term(a.m[0][2], b.m[2][0]) + fp_term(a.m[0][3], b.m[3][0]);
    let e01: i128 = fp_term(a.m[0][0], b.m[0][1]) + fp_term(a.m[0][1], b.m[1][1]) + fp_term(a.m[0][2], b.m[2][1]) + fp_term(a.m[0][3], b.m[3][1]);
    let e02: i128 = fp_term(a.m[0][0], b.m[0][2]) + fp_term(a.m[0][1], b.m[1][2]) + fp_term(a.m[0][2], b.m[2][2]) + fp_term(a.m[0][3], b.m[3][2]);
    let e03: i128 = fp_term(a.m[0][0], b.m[0][3]) + fp_term(a.m[0][1], b.m[1][3]) + fp_term(a.m[0][2], b.m[2][3]) + fp_term(a.m[0][3], b.m[3][3]);
    let e10: i128 = fp_term(a.m[1][0], b.m[0][0]) + fp_term(a.m[1][1], b.m[1][0]) + fp_term(a.m[1][2], b.m[2][0]) + fp_term(a.m[1][3], b.m[3][0]);
    let e11: i128 = fp_term(a.m[1][0], b.m[0][1]) + fp_term(a.m[1][1], b.m[1][1]) + fp_term(a.m[1][2], b.m[2][1]) + fp_term(a.m[1][3], b.m[3][1]);
    let e12: i128 = fp_term(a.m[1][0], b.m[0][2]) + fp_term(a.m[1][1], b.m[1][2]) + fp_term(a.m[1][2], b.m[2][2]) + fp_term(a.m[1][3], b.m[3][2]);
    let e13: i128 = fp_term(a.m[1][0], b.m[0][3]) + fp_term(a.m[1][1], b.m[1][3]) + fp_term(a.m[1][2], b.m[2][3]) + fp_term(a.m[1][3], b.m[3][3]);
    let e20: i128 = fp_term(a.m[2][0], b.m[0][0]) + fp_term(a.m[2][1], b.m[1][0]) + fp_term(a.m[2][2], b.m[2][0]) + fp_term(a.m[2][3], b.m[3][0]);
    let e21: i128 = fp_term(a.m[2][0], b.m[0][1]) + fp_term(a.m[2][1], b.m[1][1]) + fp_term(a.m[2][2], b.m[2][1]) + fp_term(a.m[2][3], b.m[3][1]);
    let e22: i128 = fp_term(a.m[2][0], b.m[0][2]) + fp_term(a.m[2][1], b.m[1][2]) + fp_term(a.m[2][2], b.m[2][2]) + fp_term(a.m[2][3], b.m[3][2]);
    let e23: i128 = fp_term(a.m[2][0], b.m[0][3]) + fp_term(a.m[2][1], b.m[1][3]) + fp_term(a.m[2][2], b.m[2][3]) + fp_term(a.m[2][3], b.m[3][3]);
    let e30: i128 = fp_term(a.m[3][0], b.m[0][0]) + fp_term(a.m[3][1], b.m[1][0]) + fp_term(a.m[3][2], b.m[2][0]) + fp_term(a.m[3][3], b.m[3][0]);
    let e31: i128 = fp_term(a.m[3][0], b.m[0][1]) + fp_term(a.m[3][1], b.m[1][1]) + fp_term(a.m[3][2], b.m[2][1]) + fp_term(a.m[3][3], b.m[3][1]);
    let e32: i128 = fp_term(a.m[3][0], b.m[0][2]) + fp_term(a.m[3][1], b.m[1][2]) + fp_term(a.m[3][2], b.m[2][2]) + fp_term(a.m[3][3], b.m[3][2]);
    let e33: i128 = fp_term(a.m[3][0], b.m[0][3]) + fp_term(a.m[3][1], b.m[1][3]) + fp_term(a.m[3][2], b.m[2][3]) + fp_term(a.m[3][3], b.m[3][3]);
    if e00 < i64::MIN as i128 || e00 > i64::MAX as i128 || e01 < i64::MIN as i128 || e01 > i64::MAX as i128 || e02 < i64::MIN as i128 || e02 > i64::MAX as i128 || e03 < i64::MIN as i128 || e03 > i64::MAX as i128 || e10 < i64::MIN as i128 || e10 > i64::MAX as i128 || e11 < i64::MIN as i128 || e11 > i64::MAX as i128 || e12 < i64::MIN as i128 || e12 > i64::MAX as i128 || e13 < i64::MIN as i128 || e13 > i64::MAX as i128 || e20 < i64::MIN as i128 || e20 > i64::MAX as i128 || e21 < i64::MIN as i128 || e21 > i64::MAX as i128 || e22 < i64::MIN as i128 || e22 > i64::MAX as i128 || e23 < i64::MIN as i128 || e23 > i64::MAX as i128 || e30 < i64::MIN as i128 || e30 > i64::MAX as i128 || e31 < i64::MIN as i128 || e31 > i64::MAX as i128 || e32 < i64::MIN as i128 || e32 > i64::MAX as i128 || e33 < i64::MIN as i128 || e33 > i64::MAX as i128 {
        return Err(FbxError::NumericOverflow);
    }
    Ok(Mat4 {
        m: [
            [e00 as i64, e01 as i64, e02 as i64, e03 as i64],
            [e10 as i64, e11 as i64, e12 as i64, e13 as i64],
            [e20 as i64, e21 as i64, e22 as i64, e23 as i64],
            [e30 as i64, e31 as i64, e32 as i64, e33 as i64],
        ],
    })
}

/// Applies the rotation/scale block of `a` to `v`, ignoring translation;
/// `NumericOverflow` exactly when a component leaves `i64`.
pub fn transform_vector(a: &Mat4, v: [i64; 3]) -> (r: Result<[i64; 3], FbxError>)
    ensures
        r is Ok <==> ({
            let u = stransform_vector(a.s(), (v[0] as int, v[1] as int, v[2] as int));
            fits_i64(u.0) && fits_i64(u.1) && fits_i64(u.2)
        }),
        r is Ok ==> (r->Ok_0[0] as int, r->Ok_0[1] as int, r->Ok_0[2] as int) == stransform_vector(
            a.s(),
            (v[0] as int, v[1] as int, v[2] as int),
        ),
        r is Err ==> r->Err_0 == FbxError::NumericOverflow,
{
    let u0: i128 = fp_term(a.m[0][0], v[0]) + fp_term(a.m[0][1], v[1]) + fp_term(a.m[0][2], v[2]);
    let u1: i128 = fp_term(a.m[1][0], v[0]) + fp_term(a.m[1][1], v[1]) + fp_term(a.m[1][2], v[2]);
    let u2: i128 = fp_term(a.m[2][0], v[0]) + fp_term(a.m[2][1], v[1]) + fp_term(a.m[2][2], v[2]);
    if u0 < i64::MIN as i128 || u0 > i64::MAX as i128 || u1 < i64::MIN as i128 || u1 > i64::MAX as i128 || u2 < i64::MIN as i128 || u2 > i64::MAX as i128 {
        return Err(FbxError::NumericOverflow);
    }
    Ok([u0 as i64, u1 as i64, u2 as i64])
}


/// Whether the bottom row is the affine `(0, 0, 0, 1)`.
pub open spec fn saffine(a: MatS) -> bool {
    a.e30 == 0 && a.e31 == 0 && a.e32 == 0 && a.e33 == FP_ONE as int
}

/// The fixed-point determinant of the upper 3x3 block.
pub closed spec fn sdet3(a: MatS) -> int {
    fp_mul_spec(a.e00, fp_mul_spec(a.e11, a.e22) - fp_mul_spec(a.e12, a.e21)) - fp_mul_spec(
        a.e01,
        fp_mul_spec(a.e10, a.e22) - fp_mul_spec(a.e12, a.e20),
    ) + fp_mul_spec(a.e02, fp_mul_spec(a.e10, a.e21) - fp_mul_spec(a.e11, a.e20))
}

/// Entry `(r, c)` of the adjugate of the upper 3x3 block.
pub closed spec fn sadj3(a: MatS, r: int, c: int) -> int {
    if r == 0 && c == 0 {
        fp_mul_spec(a.e11, a.e22) - fp_mul_spec(a.e12, a.e21)
    } else if r == 0 && c == 1 {
        fp_mul_spec(a.e02, a.e21) - fp_mul_spec(a.e01, a.e22)
    } else if r == 0 && c == 2 {
        fp_mul_spec(a.e01, a.e12) - fp_mul_spec(a.e02, a.e11)
    } else if r == 1 && c == 0 {
        fp_mul_spec(a.e12, a.e20) - fp_mul_spec(a.e10, a.e22)
    } else if r == 1 && c == 1 {
        fp_mul_spec(a.e00, a.e22) - fp_mul_spec(a.e02, a.e20)
    } else if r == 1 && c == 2 {
        fp_mul_spec(a.e02, a.e10) - fp_mul_spec(a.e00, a.e12)
    } else if r == 2 && c == 0 {
        fp_mul_spec(a.e10, a.e21) - fp_mul_spec(a.e11, a.e20)
    } else if r == 2 && c == 1 {
        fp_mul_spec(a.e01, a.e20) - fp_mul_spec(a.e00, a.e21)
    } else if r == 2 && c == 2 {
        fp_mul_spec(a.e00, a.e11) - fp_mul_spec(a.e01, a.e10)
    } else {
        0
    }
}

/// One entry of the inverted 3x3 block: its adjugate over the
/// determinant.
pub closed spec fn sinv3(a: MatS, r: int, c: int) -> int {
    fp_div_spec(sadj3(a, r, c), sdet3(a))
}

/// The translation of the inverse: the negated image of the translation
/// column under the inverted block.
pub closed spec fn sinv_translation(a: MatS) -> (int, int, int) {
    (
        -(fp_mul_spec(sinv3(a, 0, 0), a.e03) + fp_mul_spec(sinv3(a, 0, 1), a.e13) + fp_mul_spec(
            sinv3(a, 0, 2),
            a.e23,
        )),
        -(fp_mul_spec(sinv3(a, 1, 0), a.e03) + fp_mul_spec(sinv3(a, 1, 1), a.e13) + fp_mul_spec(
            sinv3(a, 1, 2),
            a.e23,
        )),
        -(fp_mul_spec(sinv3(a, 2, 0), a.e03) + fp_mul_spec(sinv3(a, 2, 1), a.e13) + fp_mul_spec(
            sinv3(a, 2, 2),
            a.e23,
        )),
    )
}

/// The affine inverse of `a`.
pub closed spec fn sinverse(a: MatS) -> MatS {
    MatS {
        e00: sinv3(a, 0, 0),
        e01: sinv3(a, 0, 1),
        e02: sinv3(a, 0, 2),
        e03: sinv_translation(a).0,
        e10: sinv3(a, 1, 0),
        e11: sinv3(a, 1, 1),
        e12: sinv3(a, 1, 2),
        e13: sinv_translation(a).1,
        e20: sinv3(a, 2, 0),
        e21: sinv3(a, 2, 1),
        e22: sinv3(a, 2, 2),
        e23: sinv_translation(a).2,
        e30: 0,
        e31: 0,
        e32: 0,
        e33: FP_ONE as int,
    }
}

/// When the affine inverse is defined and representable: bounded entries,
/// an affine bottom row, a non-zero determinant, and every computed entry
/// inside `i64`.
pub closed spec fn sinverse_ok(a: MatS) -> bool {
    &&& bounded_mat(a)
    &&& saffine(a)
    &&& sdet3(a) != 0
    &&& fits_mat(sinverse(a))
}

impl Mat4 {
    /// Inverts an affine transform; fails with `DegenerateTransform` on a
    /// non-affine bottom row or a zero determinant, and with
    /// `NumericOverflow` when an entry is out of range.
    pub fn affine_inverse(&self) -> (r: Result<Mat4, FbxError>)
        ensures
            r is Ok <==> sinverse_ok(self.s()),
            r is Ok ==> r->Ok_0.s() == sinverse(self.s()),
            r is Err ==> (r->Err_0 == FbxError::NumericOverflow || r->Err_0
                == FbxError::DegenerateTransform),
    {
        let m = &self.m;
        if m[0][0] < -MAT_LIMIT || m[0][0] > MAT_LIMIT || m[0][1] < -MAT_LIMIT || m[0][1] > MAT_LIMIT || m[0][2] < -MAT_LIMIT || m[0][2] > MAT_LIMIT || m[0][3] < -MAT_LIMIT || m[0][3] > MAT_LIMIT || m[1][0] < -MAT_LIMIT || m[1][0] > MAT_LIMIT || m[1][1] < -MAT_LIMIT || m[1][1] > MAT_LIMIT || m[1][2] < -MAT_LIMIT || m[1][2] > MAT_LIMIT || m[1][3] < -MAT_LIMIT || m[1][3] > MAT_LIMIT || m[2][0] < -MAT_LIMIT || m[2][0] > MAT_LIMIT || m[2][1] < -MAT_LIMIT || m[2][1] > MAT_LIMIT || m[2][2] < -MAT_LIMIT || m[2][2] > MAT_LIMIT || m[2][3] < -MAT_LIMIT || m[2][3] > MAT_LIMIT || m[3][0] < -MAT_LIMIT || m[3][0] > MAT_LIMIT || m[3][1] < -MAT_LIMIT || m[3][1] > MAT_LIMIT || m[3][2] < -MAT_LIMIT || m[3][2] > MAT_LIMIT || m[3][3] < -MAT_LIMIT || m[3][3] > MAT_LIMIT {
            return Err(FbxError::NumericOverflow);
        }
        if m[3][0] != 0 || m[3][1] != 0 || m[3][2] != 0 || m[3][3] != FP_ONE {
            return Err(FbxError::DegenerateTransform);
        }
        let adj00: i128 = fp_term_small(m[1][1], m[2][2]) - fp_term_small(m[1][2], m[2][1]);
        let adj01: i128 = fp_term_small(m[0][2], m[2][1]) - fp_term_small(m[0][1], m[2][2]);
        let adj02: i128 = fp_term_small(m[0][1], m[1][2]) - fp_term_small(m[0][2], m[1][1]);
        let adj10: i128 = fp_term_small(m[1][2], m[2][0]) - fp_term_small(m[1][0], m[2][2]);
        let adj11: i128 = fp_term_small(m[0][0], m[2][2]) - fp_term_small(m[0][2], m[2][0]);
        let adj12: i128 = fp_term_small(m[0][2], m[1][0]) - fp_term_small(m[0][0], m[1][2]);
        let adj20: i128 = fp_term_small(m[1][0], m[2][1]) - fp_term_small(m[1][1], m[2][0]);
        let adj21: i128 = fp_term_small(m[0][1], m[2][0]) - fp_term_small(m[0][0], m[2][1]);
        let adj22: i128 = fp_term_small(m[0][0], m[1][1]) - fp_term_small(m[0][1], m[1][0]);
        let det: i128 = fp_term_wide(m[0][0], adj00) - fp_term_wide(m[0][1], fp_term_small(m[1][0], m[2][2]) - fp_term_small(m[1][2], m[2][0])) + fp_term_wide(m[0][2], adj20);
        proof {
            assert(det == sdet3(self.s()));
        }
        if det == 0 {
            return Err(FbxError::DegenerateTransform);
        }
        let i00: i64 = match fp_div_wide(adj00, det) {
            Option::Some(v) => v,
            Option::None => {
                return Err(FbxError::NumericOverflow);
            },
        };
        let i01: i64 = match fp_div_wide(adj01, det) {
            Option::Some(v) => v,
            Option::None => {
                return Err(FbxError::NumericOverflow);
            },
        };
        let i02: i64 = match fp_div_wide(adj02, det) {
            Option::Some(v) => v,
            Option::None => {
                return Err(FbxError::NumericOverflow);
            },
        };
        let i10: i64 = match fp_div_wide(adj10, det) {
            Option::Some(v) => v,
            Option::None => {
                return Err(FbxError::NumericOverflow);
            },
        };
        let i11: i64 = match fp_div_wide(adj11, det) {
            Option::Some(v) => v,
            Option::None => {
                return Err(FbxError::NumericOverflow);
            },
        };
        let i12: i64 = match fp_div_wide(adj12, det) {
            Option::Some(v) => v,
            Option::None => {
                return Err(FbxError::NumericOverflow);
            },
        };
        let i20: i64 = match fp_div_wide(adj20, det) {
            Option::Some(v) => v,
            Option::None => {
                return Err(FbxError::NumericOverflow);
            },
        };
        let i21: i64 = match fp_div_wide(adj21, det) {
            Option::Some(v) => v,
            Option::None => {
                return Err(FbxError::NumericOverflow);
            },
        };
        let i22: i64 = match fp_div_wide(adj22, det) {
            Option::Some(v) => v,
            Option::None => {
                return Err(FbxError::NumericOverflow);
            },
        };
        let w0: i128 = fp_term(i00, m[0][3]) + fp_term(i01, m[1][3]) + fp_term(i02, m[2][3]);
        let w1: i128 = fp_term(i10, m[0][3]) + fp_term(i11, m[1][3]) + fp_term(i12, m[2][3]);
        let w2: i128 = fp_term(i20, m[0][3]) + fp_term(i21, m[1][3]) + fp_term(i22, m[2][3]);
        if w0 < -(i64::MAX as i128) || w0 > -(i64::MIN as i128) || w1 < -(i64::MAX as i128)
            || w1 > -(i64::MIN as i128) || w2 < -(i64::MAX as i128) || w2 > -(i64::MIN as i128) {
            return Err(FbxError::NumericOverflow);
        }
        let t0: i64 = (-w0) as i64;
        let t1: i64 = (-w1) as i64;
        let t2: i64 = (-w2) as i64;
        Ok(Mat4 {
            m: [
                [i00, i01, i02, t0],
                [i10, i11, i12, t1],
                [i20, i21, i22, t2],
                [0, 0, 0, FP_ONE],
            ],
        })
    }
}

/// One column of the upper 3x3 block.
pub closed spec fn scol(a: MatS, c: int) -> (int, int, int) {
    if c == 0 {
        (a.e00, a.e10, a.e20)
    } else if c == 1 {
        (a.e01, a.e11, a.e21)
    } else {
        (a.e02, a.e12, a.e22)
    }
}

/// Sum of the squares of one column of the upper 3x3 block: the square of
/// that basis axis's length, in squared fixed-point units.
pub closed spec fn ssumsq_col(a: MatS, c: int) -> int {
    let v = scol(a, c);
    v.0 * v.0 + v.1 * v.1 + v.2 * v.2
}

/// The scale the decomposition extracts: each axis's length, the first
/// negated when the determinant is negative.
pub closed spec fn sscale_of(a: MatS) -> (int, int, int) {
    let m0 = sqrt_floor(ssumsq_col(a, 0));
    let m1 = sqrt_floor(ssumsq_col(a, 1));
    let m2 = sqrt_floor(ssumsq_col(a, 2));
    if sdet3(a) < 0 {
        (-m0, m1, m2)
    } else {
        (m0, m1, m2)
    }
}

/// One entry of the rotation the decomposition extracts: the matrix entry
/// with its column's scale divided out.
pub closed spec fn srot_entry(a: MatS, r: int, c: int) -> int {
    let s = sscale_of(a);
    let sc = if c == 0 {
        s.0
    } else if c == 1 {
        s.1
    } else {
        s.2
    };
    let v = scol(a, c);
    let e = if r == 0 {
        v.0
    } else if r == 1 {
        v.1
    } else {
        v.2
    };
    fp_div_spec(e, sc)
}

/// When the decomposition is defined and representable: bounded entries,
/// no zero-length axis, and every rotation entry inside `i64`.
pub closed spec fn sdecompose_ok(a: MatS) -> bool {
    &&& bounded_mat(a)
    &&& sqrt_floor(ssumsq_col(a, 0)) != 0
    &&& sqrt_floor(ssumsq_col(a, 1)) != 0
    &&& sqrt_floor(ssumsq_col(a, 2)) != 0
    &&& fits_i64(srot_entry(a, 0, 0)) && fits_i64(srot_entry(a, 1, 0)) && fits_i64(
        srot_entry(a, 2, 0),
    )
    &&& fits_i64(srot_entry(a, 0, 1)) && fits_i64(srot_entry(a, 1, 1)) && fits_i64(
        srot_entry(a, 2, 1),
    )
    &&& fits_i64(srot_entry(a, 0, 2)) && fits_i64(srot_entry(a, 1, 2)) && fits_i64(
        srot_entry(a, 2, 2),
    )
}

/// A transform stored as translation, rotation and scale.
#[derive(Clone, Copy)]
pub struct LocalTransform {
    pub translation: [i64; 3],
    pub rotation: Mat4,
    pub scale: [i64; 3],
}

impl Mat4 {
    /// Decomposes an affine transform into translation, rotation and
    /// scale, the first scale axis carrying the determinant's sign.
    /// Fails with `DegenerateTransform` on a zero-length axis and with
    /// `NumericOverflow` when an entry is out of range.
    pub fn decompose(&self) -> (r: Result<LocalTransform, FbxError>)
        ensures
            r is Ok <==> sdecompose_ok(self.s()),
            r is Ok ==> ({
                let lt = r->Ok_0;
                &&& (lt.translation[0] as int, lt.translation[1] as int, lt.translation[2] as int)
                    == stranslation_of(self.s())
                &&& (lt.scale[0] as int, lt.scale[1] as int, lt.scale[2] as int) == sscale_of(
                    self.s(),
                )
                &&& forall|rr: int, cc: int|
                    0 <= rr < 3 && 0 <= cc < 3 ==> #[trigger] spec_entry(lt.rotation.s(), rr, cc)
                        == srot_entry(self.s(), rr, cc)
                &&& saffine(lt.rotation.s())
                &&& lt.rotation.s().e03 == 0 && lt.rotation.s().e13 == 0 && lt.rotation.s().e23
                    == 0
            }),
            r is Err ==> (r->Err_0 == FbxError::NumericOverflow || r->Err_0
                == FbxError::DegenerateTransform),
    {
        let m = &self.m;
        if m[0][0] < -MAT_LIMIT || m[0][0] > MAT_LIMIT || m[0][1] < -MAT_LIMIT || m[0][1] > MAT_LIMIT || m[0][2] < -MAT_LIMIT || m[0][2] > MAT_LIMIT || m[0][3] < -MAT_LIMIT || m[0][3] > MAT_LIMIT || m[1][0] < -MAT_LIMIT || m[1][0] > MAT_LIMIT || m[1][1] < -MAT_LIMIT || m[1][1] > MAT_LIMIT || m[1][2] < -MAT_LIMIT || m[1][2] > MAT_LIMIT || m[1][3] < -MAT_LIMIT || m[1][3] > MAT_LIMIT || m[2][0] < -MAT_LIMIT || m[2][0] > MAT_LIMIT || m[2][1] < -MAT_LIMIT || m[2][1] > MAT_LIMIT || m[2][2] < -MAT_LIMIT || m[2][2] > MAT_LIMIT || m[2][3] < -MAT_LIMIT || m[2][3] > MAT_LIMIT || m[3][0] < -MAT_LIMIT || m[3][0] > MAT_LIMIT || m[3][1] < -MAT_LIMIT || m[3][1] > MAT_LIMIT || m[3][2] < -MAT_LIMIT || m[3][2] > MAT_LIMIT || m[3][3] < -MAT_LIMIT || m[3][3] > MAT_LIMIT {
            return Err(FbxError::NumericOverflow);
        }
        let det: i128 = fp_term_wide(
            m[0][0],
            fp_term_small(m[1][1], m[2][2]) - fp_term_small(m[1][2], m[2][1]),
        ) - fp_term_wide(
            m[0][1],
            fp_term_small(m[1][0], m[2][2]) - fp_term_small(m[1][2], m[2][0]),
        ) + fp_term_wide(
            m[0][2],
            fp_term_small(m[1][0], m[2][1]) - fp_term_small(m[1][1], m[2][0]),
        );
        proof {
            assert(det == sdet3(self.s()));
        }
        let s0: i128 = crate::fixed::sq_small(m[0][0]) + crate::fixed::sq_small(m[1][0])
            + crate::fixed::sq_small(m[2][0]);
        proof {
            assert(s0 == ssumsq_col(self.s(), 0));
        }
        let mag0: u64 = int_sqrt(s0 as u128);
        proof {
            crate::fixed::lemma_sqrt_floor_unique(s0 as int, mag0 as int);
            assert((mag0 as int) * (mag0 as int) <= s0 && s0 < 0x1_0000_0000_0000_0000_0000_0000
                ==> mag0 < 0x1_0000_0000_0000) by (nonlinear_arith);
        }
        if mag0 == 0 {
            return Err(FbxError::DegenerateTransform);
        }
        let s1: i128 = crate::fixed::sq_small(m[0][1]) + crate::fixed::sq_small(m[1][1])
            + crate::fixed::sq_small(m[2][1]);
        proof {
            assert(s1 == ssumsq_col(self.s(), 1));
        }
        let mag1: u64 = int_sqrt(s1 as u128);
        proof {
            crate::fixed::lemma_sqrt_floor_unique(s1 as int, mag1 as int);
            assert((mag1 as int) * (mag1 as int) <= s1 && s1 < 0x1_0000_0000_0000_0000_0000_0000
                ==> mag1 < 0x1_0000_0000_0000) by (nonlinear_arith);
        }
        if mag1 == 0 {
            return Err(FbxError::DegenerateTransform);
        }
        let s2: i128 = crate::fixed::sq_small(m[0][2]) + crate::fixed::sq_small(m[1][2])
            + crate::fixed::sq_small(m[2][2]);
        proof {
            assert(s2 == ssumsq_col(self.s(), 2));
        }
        let mag2: u64 = int_sqrt(s2 as u128);
        proof {
            crate::fixed::lemma_sqrt_floor_unique(s2 as int, mag2 as int);
            assert((mag2 as int) * (mag2 as int) <= s2 && s2 < 0x1_0000_0000_0000_0000_0000_0000
                ==> mag2 < 0x1_0000_0000_0000) by (nonlinear_arith);
        }
        if mag2 == 0 {
            return Err(FbxError::DegenerateTransform);
        }
        let sc0: i64 = if det < 0 {
            -(mag0 as i64)
        } else {
            mag0 as i64
        };
        let sc1: i64 = mag1 as i64;
        let sc2: i64 = mag2 as i64;
        let r00: i64 = match crate::fixed::fp_div(m[0][0], sc0) {
            Option::Some(v) => v,
            Option::None => {
                return Err(FbxError::NumericOverflow);
            },
        };
        let r01: i64 = match crate::fixed::fp_div(m[0][1], sc1) {
            Option::Some(v) => v,
            Option::None => {
                return Err(FbxError::NumericOverflow);
            },
        };
        let r02: i64 = match crate::fixed::fp_div(m[0][2], sc2) {
            Option::Some(v) => v,
            Option::None => {
                return Err(FbxError::NumericOverflow);
            },
        };
        let r10: i64 = match crate::fixed::fp_div(m[1][0], sc0) {
            Option::Some(v) => v,
            Option::None => {
                return Err(FbxError::NumericOverflow);
            },
        };
        let r11: i64 = match crate::fixed::fp_div(m[1][1], sc1) {
            Option::Some(v) => v,
            Option::None => {
                return Err(FbxError::NumericOverflow);
            },
        };
        let r12: i64 = match crate::fixed::fp_div(m[1][2], sc2) {
            Option::Some(v) => v,
            Option::None => {
                return Err(FbxError::NumericOverflow);
            },
        };
        let r20: i64 = match crate::fixed::fp_div(m[2][0], sc0) {
            Option::Some(v) => v,
            Option::None => {
                return Err(FbxError::NumericOverflow);
            },
        };
        let r21: i64 = match crate::fixed::fp_div(m[2][1], sc1) {
            Option::Some(v) => v,
            Option::None => {
                return Err(FbxError::NumericOverflow);
            },
        };
        let r22: i64 = match crate::fixed::fp_div(m[2][2], sc2) {
            Option::Some(v) => v,
            Option::None => {
                return Err(FbxError::NumericOverflow);
            },
        };
        let rotation = Mat4 {
            m: [
                [r00, r01, r02, 0],
                [r10, r11, r12, 0],
                [r20, r21, r22, 0],
                [0, 0, 0, FP_ONE],
            ],
        };
        let lt = LocalTransform {
            translation: [m[0][3], m[1][3], m[2][3]],
            rotation,
            scale: [sc0, sc1, sc2],
        };
        proof {
            assert forall|rr: int, cc: int| 0 <= rr < 3 && 0 <= cc < 3 implies #[trigger] spec_entry(
                lt.rotation.s(),
                rr,
                cc,
            ) == srot_entry(self.s(), rr, cc) by {
                assert(0 <= rr < 3 && 0 <= cc < 3);
            }
        }
        Ok(lt)
    }
}

/// Entry `(r, c)` of an integer-level matrix.
pub open spec fn spec_entry(a: MatS, r: int, c: int) -> int {
    if r == 0 {
        if c == 0 {
            a.e00
        } else if c == 1 {
            a.e01
        } else if c == 2 {
            a.e02
        } else {
            a.e03
        }
    } else if r == 1 {
        if c == 0 {
            a.e10
        } else if c == 1 {
            a.e11
        } else if c == 2 {
            a.e12
        } else {
            a.e13
        }
    } else if r == 2 {
        if c == 0 {
            a.e20
        } else if c == 1 {
            a.e21
        } else if c == 2 {
            a.e22
        } else {
            a.e23
        }
    } else {
        if c == 0 {
            a.e30
        } else if c == 1 {
            a.e31
        } else if c == 2 {
            a.e32
        } else {
            a.e33
        }
    }
}

} // verus!
