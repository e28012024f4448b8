//! Composition of the model, view and projection transforms.
//!
//! The frame's vertex transform is the fixed order
//! `projection * view * model`; the normal transform is the transpose of the
//! inverse of the upper 3x3 block of `view * model`, computed through the
//! cofactor matrix and the determinant.  A singular block (or one whose
//! inverse entries cannot be represented) is reported as degenerate rather
//! than propagated, and the caller substitutes an identity or skips
//! lighting.

use vstd::prelude::*;

use crate::camera::VIEW_MAX;
use crate::fixed::FX_ONE;
use crate::fixed::div_trunc_wide;
use crate::fixed::iabs;
use crate::fixed::tdiv;
use crate::matrix::MUL_IN_MAX;
use crate::matrix::Mat4;
use crate::matrix::mat4_mul;
use crate::matrix::spec_mat4_mul;
use crate::vec3::lemma_mul_bound;
use crate::vec3::mul_wide;

verus! {

/// Bound on the entries of the upper 3x3 block handed to the normal-matrix
/// computation, so that determinants and rescaled cofactors fit an `i128`.
pub const NORMAL_IN_MAX: i64 = 1_000_000_000_000;

/// Bound on the entries of the model matrix accepted by [`compose`]: scales
/// and offsets up to forty fixed-point units.
pub const COMPOSE_MODEL_MAX: i64 = 40_000_000;

/// The upper 3x3 block of a transform, as used for normal vectors.
#[derive(Clone, Copy, PartialEq, Eq, Structural, Debug)]
pub struct Mat3 {
    pub n00: i64,
    pub n01: i64,
    pub n02: i64,
    pub n10: i64,
    pub n11: i64,
    pub n12: i64,
    pub n20: i64,
    pub n21: i64,
    pub n22: i64,
}

impl Mat3 {
    /// Every entry is at most `m` in magnitude.
    pub open spec fn bounded(self, m: int) -> bool {
        &&& iabs(self.n00 as int) <= m
        &&& iabs(self.n01 as int) <= m
        &&& iabs(self.n02 as int) <= m
        &&& iabs(self.n10 as int) <= m
        &&& iabs(self.n11 as int) <= m
        &&& iabs(self.n12 as int) <= m
        &&& iabs(self.n20 as int) <= m
        &&& iabs(self.n21 as int) <= m
        &&& iabs(self.n22 as int) <= m
    }
}

/// The upper 3x3 block of a 4x4 matrix.
pub open spec fn spec_upper3x3(m: Mat4) -> Mat3 {
    Mat3 {
        n00: m.m00,
        n01: m.m01,
        n02: m.m02,
        n10: m.m10,
        n11: m.m11,
        n12: m.m12,
        n20: m.m20,
        n21: m.m21,
        n22: m.m22,
    }
}

/// The upper 3x3 block of a 4x4 matrix.
pub fn upper3x3(m: &Mat4) -> (r: Mat3)
    ensures
        r == spec_upper3x3(*m),
{
    Mat3 {
        n00: m.m00,
        n01: m.m01,
        n02: m.m02,
        n10: m.m10,
        n11: m.m11,
        n12: m.m12,
        n20: m.m20,
        n21: m.m21,
        n22: m.m22,
    }
}

/// The cofactors of a 3x3 matrix (signs included).
pub open spec fn cof00(m: Mat3) -> int {
    m.n11 * m.n22 - m.n12 * m.n21
}

pub open spec fn cof01(m: Mat3) -> int {
    m.n12 * m.n20 - m.n10 * m.n22
}

pub open spec fn cof02(m: Mat3) -> int {
    m.n10 * m.n21 - m.n11 * m.n20
}

pub open spec fn cof10(m: Mat3) -> int {
    m.n02 * m.n21 - m.n01 * m.n22
}

pub open spec fn cof11(m: Mat3) -> int {
    m.n00 * m.n22 - m.n02 * m.n20
}

pub open spec fn cof12(m: Mat3) -> int {
    m.n01 * m.n20 - m.n00 * m.n21
}

pub open spec fn cof20(m: Mat3) -> int {
    m.n01 * m.n12 - m.n02 * m.n11
}

pub open spec fn cof21(m: Mat3) -> int {
    m.n02 * m.n10 - m.n00 * m.n12
}

pub open spec fn cof22(m: Mat3) -> int {
    m.n00 * m.n11 - m.n01 * m.n10
}

/// The determinant of a 3x3 matrix, expanded along the first row.
pub open spec fn det3(m: Mat3) -> int {
    m.n00 * cof00(m) + m.n01 * cof01(m) + m.n02 * cof02(m)
}

/// The square of the fixed-point scale.
pub open spec fn sfx2() -> int {
    FX_ONE as int * FX_ONE as int
}

/// Entry `(i, j)` of the normal matrix is cofactor `(i, j)` rescaled by the
/// squared scale and divided by the determinant: the transpose of the
/// inverse is the cofactor matrix over the determinant.
pub open spec fn nent(c: int, d: int) -> int {
    tdiv(c * sfx2(), d)
}

/// The normal matrix is representable: the block is not singular and every
/// rescaled entry of the inverse transpose fits the fixed-point range.
pub open spec fn normal_rep_ok(m: Mat3) -> bool {
    &&& det3(m) != 0
    &&& iabs(nent(cof00(m), det3(m))) <= i64::MAX as int
    &&& iabs(nent(cof01(m), det3(m))) <= i64::MAX as int
    &&& iabs(nent(cof02(m), det3(m))) <= i64::MAX as int
    &&& iabs(nent(cof10(m), det3(m))) <= i64::MAX as int
    &&& iabs(nent(cof11(m), det3(m))) <= i64::MAX as int
    &&& iabs(nent(cof12(m), det3(m))) <= i64::MAX as int
    &&& iabs(nent(cof20(m), det3(m))) <= i64::MAX as int
    &&& iabs(nent(cof21(m), det3(m))) <= i64::MAX as int
    &&& iabs(nent(cof22(m), det3(m))) <= i64::MAX as int
}

/// The normal matrix of a representable block.
pub open spec fn spec_normal_matrix(m: Mat3) -> Mat3 {
    Mat3 {
        n00: nent(cof00(m), det3(m)) as i64,
        n01: nent(cof01(m), det3(m)) as i64,
        n02: nent(cof02(m), det3(m)) as i64,
        n10: nent(cof10(m), det3(m)) as i64,
        n11: nent(cof11(m), det3(m)) as i64,
        n12: nent(cof12(m), det3(m)) as i64,
        n20: nent(cof20(m), det3(m)) as i64,
        n21: nent(cof21(m), det3(m)) as i64,
        n22: nent(cof22(m), det3(m)) as i64,
    }
}

/// The transpose of the inverse of a 3x3 block, in fixed point: the
/// cofactor matrix rescaled by the squared scale and divided by the
/// determinant.  `None` when the block is singular or an entry of the
/// inverse cannot be represented; normals cannot be corrected then, and the
/// caller substitutes an identity or skips lighting.
pub fn normal_matrix(m: &Mat3) -> (r: Option<Mat3>)
    requires
        m.bounded(NORMAL_IN_MAX as int),
    ensures
        r is Some <==> normal_rep_ok(*m),
        r is Some ==> r.unwrap() == spec_normal_matrix(*m),
{
    proof {
        lemma_mul_bound(m.n11 as int, m.n22 as int, NORMAL_IN_MAX as int, NORMAL_IN_MAX as int);
        lemma_mul_bound(m.n12 as int, m.n21 as int, NORMAL_IN_MAX as int, NORMAL_IN_MAX as int);
        lemma_mul_bound(m.n12 as int, m.n20 as int, NORMAL_IN_MAX as int, NORMAL_IN_MAX as int);
        lemma_mul_bound(m.n10 as int, m.n22 as int, NORMAL_IN_MAX as int, NORMAL_IN_MAX as int);
        lemma_mul_bound(m.n10 as int, m.n21 as int, NORMAL_IN_MAX as int, NORMAL_IN_MAX as int);
        lemma_mul_bound(m.n11 as int, m.n20 as int, NORMAL_IN_MAX as int, NORMAL_IN_MAX as int);
        lemma_mul_bound(m.n02 as int, m.n21 as int, NORMAL_IN_MAX as int, NORMAL_IN_MAX as int);
        lemma_mul_bound(m.n01 as int, m.n22 as int, NORMAL_IN_MAX as int, NORMAL_IN_MAX as int);
        lemma_mul_bound(m.n00 as int, m.n22 as int, NORMAL_IN_MAX as int, NORMAL_IN_MAX as int);
        lemma_mul_bound(m.n02 as int, m.n20 as int, NORMAL_IN_MAX as int, NORMAL_IN_MAX as int);
        lemma_mul_bound(m.n01 as int, m.n20 as int, NORMAL_IN_MAX as int, NORMAL_IN_MAX as int);
        lemma_mul_bound(m.n00 as int, m.n21 as int, NORMAL_IN_MAX as int, NORMAL_IN_MAX as int);
        lemma_mul_bound(m.n01 as int, m.n12 as int, NORMAL_IN_MAX as int, NORMAL_IN_MAX as int);
        lemma_mul_bound(m.n02 as int, m.n11 as int, NORMAL_IN_MAX as int, NORMAL_IN_MAX as int);
        lemma_mul_bound(m.n02 as int, m.n10 as int, NORMAL_IN_MAX as int, NORMAL_IN_MAX as int);
        lemma_mul_bound(m.n00 as int, m.n12 as int, NORMAL_IN_MAX as int, NORMAL_IN_MAX as int);
        lemma_mul_bound(m.n00 as int, m.n11 as int, NORMAL_IN_MAX as int, NORMAL_IN_MAX as int);
        lemma_mul_bound(m.n01 as int, m.n10 as int, NORMAL_IN_MAX as int, NORMAL_IN_MAX as int);
    }
    let c00: i128 = mul_wide(m.n11, m.n22) - mul_wide(m.n12, m.n21);
    let c01: i128 = mul_wide(m.n12, m.n20) - mul_wide(m.n10, m.n22);
    let c02: i128 = mul_wide(m.n10, m.n21) - mul_wide(m.n11, m.n20);
    let c10: i128 = mul_wide(m.n02, m.n21) - mul_wide(m.n01, m.n22);
    let c11: i128 = mul_wide(m.n00, m.n22) - mul_wide(m.n02, m.n20);
    let c12: i128 = mul_wide(m.n01, m.n20) - mul_wide(m.n00, m.n21);
    let c20: i128 = mul_wide(m.n01, m.n12) - mul_wide(m.n02, m.n11);
    let c21: i128 = mul_wide(m.n02, m.n10) - mul_wide(m.n00, m.n12);
    let c22: i128 = mul_wide(m.n00, m.n11) - mul_wide(m.n01, m.n10);
    proof {
        lemma_mul_bound(
            m.n00 as int,
            c00 as int,
            NORMAL_IN_MAX as int,
            2 * (NORMAL_IN_MAX as int * NORMAL_IN_MAX as int),
        );
        lemma_mul_bound(
            m.n01 as int,
            c01 as int,
            NORMAL_IN_MAX as int,
            2 * (NORMAL_IN_MAX as int * NORMAL_IN_MAX as int),
        );
        lemma_mul_bound(
            m.n02 as int,
            c02 as int,
            NORMAL_IN_MAX as int,
            2 * (NORMAL_IN_MAX as int * NORMAL_IN_MAX as int),
        );
    }
    let det: i128 = (m.n00 as i128) * c00 + (m.n01 as i128) * c01 + (m.n02 as i128) * c02;
    if det == 0 {
        return None;
    }
    proof {
        assert(FX_ONE as int * FX_ONE as int == 1_000_000_000_000) by (nonlinear_arith);
    }
    let fx2: i128 = (FX_ONE as i128) * (FX_ONE as i128);
    proof {
        lemma_cof_numer_bound(c00 as int, fx2 as int);
        lemma_cof_numer_bound(c01 as int, fx2 as int);
        lemma_cof_numer_bound(c02 as int, fx2 as int);
        lemma_cof_numer_bound(c10 as int, fx2 as int);
        lemma_cof_numer_bound(c11 as int, fx2 as int);
        lemma_cof_numer_bound(c12 as int, fx2 as int);
        lemma_cof_numer_bound(c20 as int, fx2 as int);
        lemma_cof_numer_bound(c21 as int, fx2 as int);
        lemma_cof_numer_bound(c22 as int, fx2 as int);
    }
    let q00: i128 = div_trunc_wide(c00 * fx2, det);
    let q01: i128 = div_trunc_wide(c01 * fx2, det);
    let q02: i128 = div_trunc_wide(c02 * fx2, det);
    let q10: i128 = div_trunc_wide(c10 * fx2, det);
    let q11: i128 = div_trunc_wide(c11 * fx2, det);
    let q12: i128 = div_trunc_wide(c12 * fx2, det);
    let q20: i128 = div_trunc_wide(c20 * fx2, det);
    let q21: i128 = div_trunc_wide(c21 * fx2, det);
    let q22: i128 = div_trunc_wide(c22 * fx2, det);
    let max: i128 = 9_223_372_036_854_775_807;
    if q00 > max || q00 < -max || q01 > max || q01 < -max || q02 > max || q02 < -max {
        return None;
    }
    if q10 > max || q10 < -max || q11 > max || q11 < -max || q12 > max || q12 < -max {
        return None;
    }
    if q20 > max || q20 < -max || q21 > max || q21 < -max || q22 > max || q22 < -max {
        return None;
    }
    Some(
        Mat3 {
            n00: q00 as i64,
            n01: q01 as i64,
            n02: q02 as i64,
            n10: q10 as i64,
            n11: q11 as i64,
            n12: q12 as i64,
            n20: q20 as i64,
            n21: q21 as i64,
            n22: q22 as i64,
        },
    )
}

/// A cofactor of a bounded 3x3 block, rescaled by the squared scale, stays
/// far inside the `i128` range.
proof fn lemma_cof_numer_bound(c: int, fx2: int)
    requires
        iabs(c) <= 2 * (NORMAL_IN_MAX as int * NORMAL_IN_MAX as int),
        fx2 == FX_ONE as int * FX_ONE as int,
    ensures
        iabs(c * fx2) <= 2 * (NORMAL_IN_MAX as int * NORMAL_IN_MAX as int) * (FX_ONE as int
            * FX_ONE as int),
{
    lemma_mul_bound(
        c,
        fx2,
        2 * (NORMAL_IN_MAX as int * NORMAL_IN_MAX as int),
        FX_ONE as int * FX_ONE as int,
    );
}

/// The composed transforms of one frame: the vertex transform
/// `projection * view * model` and, when the view-model block is
/// representable, the normal transform.
pub fn compose(projection: &Mat4, view: &Mat4, model: &Mat4) -> (r: (Mat4, Option<Mat3>))
    requires
        projection.bounded(MUL_IN_MAX as int),
        view.bounded(VIEW_MAX as int),
        model.bounded(COMPOSE_MODEL_MAX as int),
    ensures
        r.0 == spec_mat4_mul(*projection, spec_mat4_mul(*view, *model)),
        r.1 is Some <==> normal_rep_ok(spec_upper3x3(spec_mat4_mul(*view, *model))),
        r.1 is Some ==> r.1.unwrap() == spec_normal_matrix(
            spec_upper3x3(spec_mat4_mul(*view, *model)),
        ),
{
    let vm = mat4_mul(view, model);
    proof {
        crate::matrix::lemma_mat4_mul_bound(
            *view,
            *model,
            vm,
            VIEW_MAX as int,
            COMPOSE_MODEL_MAX as int,
        );
    }
    let mvp = mat4_mul(projection, &vm);
    let block = upper3x3(&vm);
    let normal = normal_matrix(&block);
    (mvp, normal)
}

} // verus!
