//! The perspective projection matrix.
//!
//! Built from a focal scale, an aspect ratio, and the near and far plane
//! distances, all fixed-point.  The focal scale is `1 / tan(fov / 2)`; the
//! tangent is transcendental, so the caller computes it (unverified, outside
//! this crate) and hands the resulting scalar in.  The matrix scales x by
//! `focal * aspect` and y by `focal`, maps z through
//! `(zfar + znear) / (zfar - znear)` and `-2 * zfar * znear / (zfar - znear)`,
//! and routes z into the w component for the perspective divide.

use vstd::prelude::*;

use crate::fixed::FX_ONE;
use crate::fixed::div_trunc;
use crate::fixed::lemma_tdiv_bound;
use crate::fixed::tdiv;
use crate::matrix::Mat4;
use crate::vec3::lemma_mul_bound;
use crate::vec3::mul_wide;

verus! {

/// Bound on the focal scale and the aspect ratio (fixed-point).
pub const PROJ_SCALE_MAX: i64 = 1_000_000_000;

/// Bound on the near and far plane distances (fixed-point).
pub const PROJ_DEPTH_MAX: i64 = 2_000_000_000;

/// Focal scale, aspect ratio and depth planes of a perspective projection.
/// `focal` is `1 / tan(fov / 2)` in fixed point; `z_near` must be positive
/// and `z_far` beyond it.
#[derive(Clone, Copy, PartialEq, Eq, Structural, Debug)]
pub struct ProjectionParams {
    pub focal: i64,
    pub aspect_ratio: i64,
    pub z_near: i64,
    pub z_far: i64,
}

impl ProjectionParams {
    /// The parameters a projection can be built from: positive focal scale
    /// and aspect ratio, ordered positive depth planes, all within the range
    /// the fixed-point arithmetic accepts.
    pub open spec fn wf(self) -> bool {
        &&& 1 <= self.focal <= PROJ_SCALE_MAX
        &&& 1 <= self.aspect_ratio <= PROJ_SCALE_MAX
        &&& 1 <= self.z_near < self.z_far <= PROJ_DEPTH_MAX
    }
}

/// The z-scale entry of the projection: `(zfar + znear) / (zfar - znear)`,
/// in fixed point.
pub open spec fn sdepth_scale(zn: int, zf: int) -> int {
    tdiv((zf + zn) * FX_ONE, zf - zn)
}

/// The z-offset entry of the projection: `-2 * zfar * znear / (zfar - znear)`,
/// in fixed point.
pub open spec fn sdepth_offset(zn: int, zf: int) -> int {
    -tdiv(2 * (zf * zn), zf - zn)
}

/// The perspective projection matrix of well-formed parameters.
///
/// The same parameters always give the same matrix: every entry is pinned
/// exactly.  The x scale is `focal * aspect` and the y scale `focal`; row 3
/// carries `FX_ONE` in the z column, which routes z into w for the divide.
pub fn perspective_matrix(p: &ProjectionParams) -> (r: Mat4)
    requires
        p.wf(),
    ensures
        r.m00 == tdiv(p.focal * p.aspect_ratio, FX_ONE as int),
        r.m11 == p.focal,
        r.m22 == sdepth_scale(p.z_near as int, p.z_far as int),
        r.m23 == sdepth_offset(p.z_near as int, p.z_far as int),
        r.m32 == FX_ONE,
        r.m01 == 0 && r.m02 == 0 && r.m03 == 0,
        r.m10 == 0 && r.m12 == 0 && r.m13 == 0,
        r.m20 == 0 && r.m21 == 0,
        r.m30 == 0 && r.m31 == 0 && r.m33 == 0,
{
    proof {
        lemma_mul_bound(p.focal as int, p.aspect_ratio as int, PROJ_SCALE_MAX as int, PROJ_SCALE_MAX as int);
        lemma_mul_bound(
            (p.z_far + p.z_near) as int,
            FX_ONE as int,
            2 * PROJ_DEPTH_MAX as int,
            FX_ONE as int,
        );
        lemma_mul_bound(p.z_far as int, p.z_near as int, PROJ_DEPTH_MAX as int, PROJ_DEPTH_MAX as int);
    }
    let xscale: i64 = div_trunc(p.focal * p.aspect_ratio, FX_ONE);
    let zsum_scaled: i64 = div_trunc((p.z_far + p.z_near) * FX_ONE, p.z_far - p.z_near);
    let zprod: i128 = 2 * mul_wide(p.z_far, p.z_near);
    let zoffset: i128 = crate::fixed::div_trunc_wide(zprod, (p.z_far - p.z_near) as i128);
    proof {
        lemma_tdiv_bound(zprod as int, (p.z_far - p.z_near) as int, 2 * (PROJ_DEPTH_MAX as int * PROJ_DEPTH_MAX as int));
        vstd::arithmetic::div_mod::lemma_div_nonincreasing(
            2 * (PROJ_DEPTH_MAX as int * PROJ_DEPTH_MAX as int),
            (p.z_far - p.z_near) as int,
        );
    }
    Mat4 {
        m00: xscale,
        m01: 0,
        m02: 0,
        m03: 0,
        m10: 0,
        m11: p.focal,
        m12: 0,
        m13: 0,
        m20: 0,
        m21: 0,
        m22: zsum_scaled,
        m23: -(zoffset as i64),
        m30: 0,
        m31: 0,
        m32: FX_ONE,
        m33: 0,
    }
}

/// The aspect ratio of a surface as a fixed-point scalar: height over
/// width, truncated.
pub fn aspect_ratio_fixed(width: u32, height: u32) -> (r: i64)
    requires
        width >= 1,
    ensures
        r == tdiv(height as int * FX_ONE, width as int),
        0 <= r,
{
    proof {
        lemma_mul_bound(height as int, FX_ONE as int, 0x1_0000_0000, FX_ONE as int);
    }
    div_trunc((height as i64) * FX_ONE, width as i64)
}

/// The ideal perspective mapping sends the near plane to depth `-1` and the
/// far plane to depth `+1`.
///
/// With the exact rational entries `A = (zf + zn) / (zf - zn)` and
/// `B = -2 * zf * zn / (zf - zn)`, a point at depth `z` maps to clip depth
/// `(A * z + B) / z`.  Cleared of denominators, that quotient is `-1` at
/// `z = zn` and `+1` at `z = zf`; both equalities are exact.
pub proof fn lemma_perspective_depth(zn: int, zf: int)
    requires
        0 < zn < zf,
    ensures
        (zf + zn) * zn - 2 * (zf * zn) == -1 * (zn * (zf - zn)),
        (zf + zn) * zf - 2 * (zf * zn) == 1 * (zf * (zf - zn)),
{
    assert((zf + zn) * zn - 2 * (zf * zn) == -1 * (zn * (zf - zn))) by (nonlinear_arith);
    assert((zf + zn) * zf - 2 * (zf * zn) == 1 * (zf * (zf - zn))) by (nonlinear_arith);
}

} // verus!
