//! Fixed-point 4x4 matrices.
//!
//! Entries are fixed-point scalars (see [`crate::fixed`]); `mRC` is the entry
//! in row `R` and column `C` of the mathematical matrix that multiplies
//! column vectors from the left.  The matrix product divides each row-column
//! sum back into the fixed scale, so the representation of the identity has
//! `FX_ONE` on the diagonal.

use vstd::prelude::*;

use crate::fixed::FX_ONE;
use crate::fixed::div_trunc_wide;
use crate::fixed::iabs;
use crate::fixed::lemma_tdiv_bound;
use crate::fixed::tdiv;
use crate::vec3::lemma_mul_bound;
use crate::vec3::mul_wide;

verus! {

/// Bound on the entries of the factors of a matrix product.
pub const MUL_IN_MAX: i64 = 1_000_000_000_000;

/// Bound on the entries of a matrix product of factors within
/// [`MUL_IN_MAX`]: four times the squared input bound, divided by the scale.
pub const MUL_OUT_MAX: i64 = 4_000_000_000_000_000_000;

/// A 4x4 matrix of fixed-point scalars, row-major: `mRC` is row `R`,
/// column `C`.
#[derive(Clone, Copy, PartialEq, Eq, Structural, Debug)]
pub struct Mat4 {
    pub m00: i64,
    pub m01: i64,
    pub m02: i64,
    pub m03: i64,
    pub m10: i64,
    pub m11: i64,
    pub m12: i64,
    pub m13: i64,
    pub m20: i64,
    pub m21: i64,
    pub m22: i64,
    pub m23: i64,
    pub m30: i64,
    pub m31: i64,
    pub m32: i64,
    pub m33: i64,
}

impl Mat4 {
    /// Every entry is at most `m` in magnitude.
    pub open spec fn bounded(self, m: int) -> bool {
        &&& iabs(self.m00 as int) <= m
        &&& iabs(self.m01 as int) <= m
        &&& iabs(self.m02 as int) <= m
        &&& iabs(self.m03 as int) <= m
        &&& iabs(self.m10 as int) <= m
        &&& iabs(self.m11 as int) <= m
        &&& iabs(self.m12 as int) <= m
        &&& iabs(self.m13 as int) <= m
        &&& iabs(self.m20 as int) <= m
        &&& iabs(self.m21 as int) <= m
        &&& iabs(self.m22 as int) <= m
        &&& iabs(self.m23 as int) <= m
        &&& iabs(self.m30 as int) <= m
        &&& iabs(self.m31 as int) <= m
        &&& iabs(self.m32 as int) <= m
        &&& iabs(self.m33 as int) <= m
    }

    /// The fixed-point identity: `FX_ONE` on the diagonal.
    pub fn identity() -> (r: Mat4)
        ensures
            r == Mat4::spec_identity(),
    {
        Mat4 {
            m00: FX_ONE,
            m01: 0,
            m02: 0,
            m03: 0,
            m10: 0,
            m11: FX_ONE,
            m12: 0,
            m13: 0,
            m20: 0,
            m21: 0,
            m22: FX_ONE,
            m23: 0,
            m30: 0,
            m31: 0,
            m32: 0,
            m33: FX_ONE,
        }
    }

    pub open spec fn spec_identity() -> Mat4 {
        Mat4 {
            m00: FX_ONE,
            m01: 0,
            m02: 0,
            m03: 0,
            m10: 0,
            m11: FX_ONE,
            m12: 0,
            m13: 0,
            m20: 0,
            m21: 0,
            m22: FX_ONE,
            m23: 0,
            m30: 0,
            m31: 0,
            m32: 0,
            m33: FX_ONE,
        }
    }
}

/// A uniform scale together with a translation along the z axis, as the
/// model transform of a scene object: `scale` on the upper diagonal and `tz`
/// in the z translation slot.
pub fn model_matrix(scale: i64, tz: i64) -> (r: Mat4)
    ensures
        r.m00 == scale,
        r.m11 == scale,
        r.m22 == scale,
        r.m23 == tz,
        r.m33 == FX_ONE,
        r.m01 == 0 && r.m02 == 0 && r.m03 == 0,
        r.m10 == 0 && r.m12 == 0 && r.m13 == 0,
        r.m20 == 0 && r.m21 == 0,
        r.m30 == 0 && r.m31 == 0 && r.m32 == 0,
{
    Mat4 {
        m00: scale,
        m01: 0,
        m02: 0,
        m03: 0,
        m10: 0,
        m11: scale,
        m12: 0,
        m13: 0,
        m20: 0,
        m21: 0,
        m22: scale,
        m23: tz,
        m30: 0,
        m31: 0,
        m32: 0,
        m33: FX_ONE,
    }
}

/// One entry of a fixed-point matrix product: the four-term row-column sum,
/// divided back into the fixed scale.
pub open spec fn mulent(
    r0: int,
    r1: int,
    r2: int,
    r3: int,
    c0: int,
    c1: int,
    c2: int,
    c3: int,
) -> int {
    tdiv(r0 * c0 + r1 * c1 + r2 * c2 + r3 * c3, FX_ONE as int)
}

/// The fixed-point matrix product at the spec level: entry by entry, the
/// scaled-back row-column sums.
pub open spec fn spec_mat4_mul(a: Mat4, b: Mat4) -> Mat4 {
    Mat4 {
        m00: mulent(a.m00 as int, a.m01 as int, a.m02 as int, a.m03 as int, b.m00 as int, b.m10 as int, b.m20 as int, b.m30 as int) as i64,
        m01: mulent(a.m00 as int, a.m01 as int, a.m02 as int, a.m03 as int, b.m01 as int, b.m11 as int, b.m21 as int, b.m31 as int) as i64,
        m02: mulent(a.m00 as int, a.m01 as int, a.m02 as int, a.m03 as int, b.m02 as int, b.m12 as int, b.m22 as int, b.m32 as int) as i64,
        m03: mulent(a.m00 as int, a.m01 as int, a.m02 as int, a.m03 as int, b.m03 as int, b.m13 as int, b.m23 as int, b.m33 as int) as i64,
        m10: mulent(a.m10 as int, a.m11 as int, a.m12 as int, a.m13 as int, b.m00 as int, b.m10 as int, b.m20 as int, b.m30 as int) as i64,
        m11: mulent(a.m10 as int, a.m11 as int, a.m12 as int, a.m13 as int, b.m01 as int, b.m11 as int, b.m21 as int, b.m31 as int) as i64,
        m12: mulent(a.m10 as int, a.m11 as int, a.m12 as int, a.m13 as int, b.m02 as int, b.m12 as int, b.m22 as int, b.m32 as int) as i64,
        m13: mulent(a.m10 as int, a.m11 as int, a.m12 as int, a.m13 as int, b.m03 as int, b.m13 as int, b.m23 as int, b.m33 as int) as i64,
        m20: mulent(a.m20 as int, a.m21 as int, a.m22 as int, a.m23 as int, b.m00 as int, b.m10 as int, b.m20 as int, b.m30 as int) as i64,
        m21: mulent(a.m20 as int, a.m21 as int, a.m22 as int, a.m23 as int, b.m01 as int, b.m11 as int, b.m21 as int, b.m31 as int) as i64,
        m22: mulent(a.m20 as int, a.m21 as int, a.m22 as int, a.m23 as int, b.m02 as int, b.m12 as int, b.m22 as int, b.m32 as int) as i64,
        m23: mulent(a.m20 as int, a.m21 as int, a.m22 as int, a.m23 as int, b.m03 as int, b.m13 as int, b.m23 as int, b.m33 as int) as i64,
        m30: mulent(a.m30 as int, a.m31 as int, a.m32 as int, a.m33 as int, b.m00 as int, b.m10 as int, b.m20 as int, b.m30 as int) as i64,
        m31: mulent(a.m30 as int, a.m31 as int, a.m32 as int, a.m33 as int, b.m01 as int, b.m11 as int, b.m21 as int, b.m31 as int) as i64,
        m32: mulent(a.m30 as int, a.m31 as int, a.m32 as int, a.m33 as int, b.m02 as int, b.m12 as int, b.m22 as int, b.m32 as int) as i64,
        m33: mulent(a.m30 as int, a.m31 as int, a.m32 as int, a.m33 as int, b.m03 as int, b.m13 as int, b.m23 as int, b.m33 as int) as i64,
    }
}

/// One scaled-back row-column sum of componentwise-bounded rows and columns
/// is bounded by four times the product of the bounds, divided by the scale.
pub proof fn lemma_mulent_bound(
    r0: int,
    r1: int,
    r2: int,
    r3: int,
    c0: int,
    c1: int,
    c2: int,
    c3: int,
    ma: int,
    mb: int,
)
    requires
        0 <= ma,
        0 <= mb,
        iabs(r0) <= ma && iabs(r1) <= ma && iabs(r2) <= ma && iabs(r3) <= ma,
        iabs(c0) <= mb && iabs(c1) <= mb && iabs(c2) <= mb && iabs(c3) <= mb,
    ensures
        iabs(mulent(r0, r1, r2, r3, c0, c1, c2, c3)) <= 4 * (ma * mb) / FX_ONE as int,
{
    lemma_mul_bound(r0, c0, ma, mb);
    lemma_mul_bound(r1, c1, ma, mb);
    lemma_mul_bound(r2, c2, ma, mb);
    lemma_mul_bound(r3, c3, ma, mb);
    lemma_tdiv_bound(r0 * c0 + r1 * c1 + r2 * c2 + r3 * c3, FX_ONE as int, 4 * (ma * mb));
}

/// A matrix product of componentwise-bounded factors is componentwise
/// bounded by four times the product of the bounds, divided by the scale.
pub proof fn lemma_mat4_mul_bound(a: Mat4, b: Mat4, r: Mat4, ma: int, mb: int)
    requires
        0 <= ma,
        0 <= mb,
        4 * (ma * mb) / FX_ONE as int <= i64::MAX as int,
        a.bounded(ma),
        b.bounded(mb),
        r == spec_mat4_mul(a, b),
    ensures
        r.bounded(4 * (ma * mb) / FX_ONE as int),
{
    lemma_mulent_bound(a.m00 as int, a.m01 as int, a.m02 as int, a.m03 as int, b.m00 as int, b.m10 as int, b.m20 as int, b.m30 as int, ma, mb);
    lemma_mulent_bound(a.m00 as int, a.m01 as int, a.m02 as int, a.m03 as int, b.m01 as int, b.m11 as int, b.m21 as int, b.m31 as int, ma, mb);
    lemma_mulent_bound(a.m00 as int, a.m01 as int, a.m02 as int, a.m03 as int, b.m02 as int, b.m12 as int, b.m22 as int, b.m32 as int, ma, mb);
    lemma_mulent_bound(a.m00 as int, a.m01 as int, a.m02 as int, a.m03 as int, b.m03 as int, b.m13 as int, b.m23 as int, b.m33 as int, ma, mb);
    lemma_mulent_bound(a.m10 as int, a.m11 as int, a.m12 as int, a.m13 as int, b.m00 as int, b.m10 as int, b.m20 as int, b.m30 as int, ma, mb);
    lemma_mulent_bound(a.m10 as int, a.m11 as int, a.m12 as int, a.m13 as int, b.m01 as int, b.m11 as int, b.m21 as int, b.m31 as int, ma, mb);
    lemma_mulent_bound(a.m10 as int, a.m11 as int, a.m12 as int, a.m13 as int, b.m02 as int, b.m12 as int, b.m22 as int, b.m32 as int, ma, mb);
    lemma_mulent_bound(a.m10 as int, a.m11 as int, a.m12 as int, a.m13 as int, b.m03 as int, b.m13 as int, b.m23 as int, b.m33 as int, ma, mb);
    lemma_mulent_bound(a.m20 as int, a.m21 as int, a.m22 as int, a.m23 as int, b.m00 as int, b.m10 as int, b.m20 as int, b.m30 as int, ma, mb);
    lemma_mulent_bound(a.m20 as int, a.m21 as int, a.m22 as int, a.m23 as int, b.m01 as int, b.m11 as int, b.m21 as int, b.m31 as int, ma, mb);
    lemma_mulent_bound(a.m20 as int, a.m21 as int, a.m22 as int, a.m23 as int, b.m02 as int, b.m12 as int, b.m22 as int, b.m32 as int, ma, mb);
    lemma_mulent_bound(a.m20 as int, a.m21 as int, a.m22 as int, a.m23 as int, b.m03 as int, b.m13 as int, b.m23 as int, b.m33 as int, ma, mb);
    lemma_mulent_bound(a.m30 as int, a.m31 as int, a.m32 as int, a.m33 as int, b.m00 as int, b.m10 as int, b.m20 as int, b.m30 as int, ma, mb);
    lemma_mulent_bound(a.m30 as int, a.m31 as int, a.m32 as int, a.m33 as int, b.m01 as int, b.m11 as int, b.m21 as int, b.m31 as int, ma, mb);
    lemma_mulent_bound(a.m30 as int, a.m31 as int, a.m32 as int, a.m33 as int, b.m02 as int, b.m12 as int, b.m22 as int, b.m32 as int, ma, mb);
    lemma_mulent_bound(a.m30 as int, a.m31 as int, a.m32 as int, a.m33 as int, b.m03 as int, b.m13 as int, b.m23 as int, b.m33 as int, ma, mb);
}

/// One entry of the product, computed exactly in `i128` arithmetic.
fn mulent_exec(r0: i64, r1: i64, r2: i64, r3: i64, c0: i64, c1: i64, c2: i64, c3: i64) -> (e: i64)
    requires
        iabs(r0 as int) <= MUL_IN_MAX as int,
        iabs(r1 as int) <= MUL_IN_MAX as int,
        iabs(r2 as int) <= MUL_IN_MAX as int,
        iabs(r3 as int) <= MUL_IN_MAX as int,
        iabs(c0 as int) <= MUL_IN_MAX as int,
        iabs(c1 as int) <= MUL_IN_MAX as int,
        iabs(c2 as int) <= MUL_IN_MAX as int,
        iabs(c3 as int) <= MUL_IN_MAX as int,
    ensures
        e == mulent(r0 as int, r1 as int, r2 as int, r3 as int, c0 as int, c1 as int, c2 as int, c3 as int),
        iabs(e as int) <= MUL_OUT_MAX as int,
{
    proof {
        lemma_mul_bound(r0 as int, c0 as int, MUL_IN_MAX as int, MUL_IN_MAX as int);
        lemma_mul_bound(r1 as int, c1 as int, MUL_IN_MAX as int, MUL_IN_MAX as int);
        lemma_mul_bound(r2 as int, c2 as int, MUL_IN_MAX as int, MUL_IN_MAX as int);
        lemma_mul_bound(r3 as int, c3 as int, MUL_IN_MAX as int, MUL_IN_MAX as int);
    }
    let s: i128 = mul_wide(r0, c0) + mul_wide(r1, c1) + mul_wide(r2, c2) + mul_wide(r3, c3);
    proof {
        lemma_tdiv_bound(
            s as int,
            FX_ONE as int,
            4 * MUL_IN_MAX as int * MUL_IN_MAX as int,
        );
    }
    let q: i128 = div_trunc_wide(s, FX_ONE as i128);
    q as i64
}

/// The fixed-point matrix product `a * b` (so `a * b` applied to a vector
/// first applies `b`): each entry is the row-column sum of exact products,
/// divided once by the scale.
pub fn mat4_mul(a: &Mat4, b: &Mat4) -> (r: Mat4)
    requires
        a.bounded(MUL_IN_MAX as int),
        b.bounded(MUL_IN_MAX as int),
    ensures
        r.m00 == mulent(a.m00 as int, a.m01 as int, a.m02 as int, a.m03 as int, b.m00 as int, b.m10 as int, b.m20 as int, b.m30 as int),
        r.m01 == mulent(a.m00 as int, a.m01 as int, a.m02 as int, a.m03 as int, b.m01 as int, b.m11 as int, b.m21 as int, b.m31 as int),
        r.m02 == mulent(a.m00 as int, a.m01 as int, a.m02 as int, a.m03 as int, b.m02 as int, b.m12 as int, b.m22 as int, b.m32 as int),
        r.m03 == mulent(a.m00 as int, a.m01 as int, a.m02 as int, a.m03 as int, b.m03 as int, b.m13 as int, b.m23 as int, b.m33 as int),
        r.m10 == mulent(a.m10 as int, a.m11 as int, a.m12 as int, a.m13 as int, b.m00 as int, b.m10 as int, b.m20 as int, b.m30 as int),
        r.m11 == mulent(a.m10 as int, a.m11 as int, a.m12 as int, a.m13 as int, b.m01 as int, b.m11 as int, b.m21 as int, b.m31 as int),
        r.m12 == mulent(a.m10 as int, a.m11 as int, a.m12 as int, a.m13 as int, b.m02 as int, b.m12 as int, b.m22 as int, b.m32 as int),
        r.m13 == mulent(a.m10 as int, a.m11 as int, a.m12 as int, a.m13 as int, b.m03 as int, b.m13 as int, b.m23 as int, b.m33 as int),
        r.m20 == mulent(a.m20 as int, a.m21 as int, a.m22 as int, a.m23 as int, b.m00 as int, b.m10 as int, b.m20 as int, b.m30 as int),
        r.m21 == mulent(a.m20 as int, a.m21 as int, a.m22 as int, a.m23 as int, b.m01 as int, b.m11 as int, b.m21 as int, b.m31 as int),
        r.m22 == mulent(a.m20 as int, a.m21 as int, a.m22 as int, a.m23 as int, b.m02 as int, b.m12 as int, b.m22 as int, b.m32 as int),
        r.m23 == mulent(a.m20 as int, a.m21 as int, a.m22 as int, a.m23 as int, b.m03 as int, b.m13 as int, b.m23 as int, b.m33 as int),
        r.m30 == mulent(a.m30 as int, a.m31 as int, a.m32 as int, a.m33 as int, b.m00 as int, b.m10 as int, b.m20 as int, b.m30 as int),
        r.m31 == mulent(a.m30 as int, a.m31 as int, a.m32 as int, a.m33 as int, b.m01 as int, b.m11 as int, b.m21 as int, b.m31 as int),
        r.m32 == mulent(a.m30 as int, a.m31 as int, a.m32 as int, a.m33 as int, b.m02 as int, b.m12 as int, b.m22 as int, b.m32 as int),
        r.m33 == mulent(a.m30 as int, a.m31 as int, a.m32 as int, a.m33 as int, b.m03 as int, b.m13 as int, b.m23 as int, b.m33 as int),
        r.bounded(MUL_OUT_MAX as int),
        r == spec_mat4_mul(*a, *b),
{
    Mat4 {
        m00: mulent_exec(a.m00, a.m01, a.m02, a.m03, b.m00, b.m10, b.m20, b.m30),
        m01: mulent_exec(a.m00, a.m01, a.m02, a.m03, b.m01, b.m11, b.m21, b.m31),
        m02: mulent_exec(a.m00, a.m01, a.m02, a.m03, b.m02, b.m12, b.m22, b.m32),
        m03: mulent_exec(a.m00, a.m01, a.m02, a.m03, b.m03, b.m13, b.m23, b.m33),
        m10: mulent_exec(a.m10, a.m11, a.m12, a.m13, b.m00, b.m10, b.m20, b.m30),
        m11: mulent_exec(a.m10, a.m11, a.m12, a.m13, b.m01, b.m11, b.m21, b.m31),
        m12: mulent_exec(a.m10, a.m11, a.m12, a.m13, b.m02, b.m12, b.m22, b.m32),
        m13: mulent_exec(a.m10, a.m11, a.m12, a.m13, b.m03, b.m13, b.m23, b.m33),
        m20: mulent_exec(a.m20, a.m21, a.m22, a.m23, b.m00, b.m10, b.m20, b.m30),
        m21: mulent_exec(a.m20, a.m21, a.m22, a.m23, b.m01, b.m11, b.m21, b.m31),
        m22: mulent_exec(a.m20, a.m21, a.m22, a.m23, b.m02, b.m12, b.m22, b.m32),
        m23: mulent_exec(a.m20, a.m21, a.m22, a.m23, b.m03, b.m13, b.m23, b.m33),
        m30: mulent_exec(a.m30, a.m31, a.m32, a.m33, b.m00, b.m10, b.m20, b.m30),
        m31: mulent_exec(a.m30, a.m31, a.m32, a.m33, b.m01, b.m11, b.m21, b.m31),
        m32: mulent_exec(a.m30, a.m31, a.m32, a.m33, b.m02, b.m12, b.m22, b.m32),
        m33: mulent_exec(a.m30, a.m31, a.m32, a.m33, b.m03, b.m13, b.m23, b.m33),
    }
}

} // verus!
