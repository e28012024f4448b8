//! Camera basis construction and the view matrix.
//!
//! From an eye position, a look direction and a world-up hint, the camera
//! basis is the right/up/forward triple `(s, u, f)`: `f` is the normalized
//! direction, `s` the normalized cross product of the up hint with `f`, and
//! `u` the cross product of `f` with `s`.  The view matrix carries the basis
//! in its rows and the negated projections of the position as translation.
//! A direction parallel to the up hint (or a zero direction) is degenerate
//! and reported rather than propagated.

use vstd::prelude::*;

use crate::fixed::FX_ONE;
use crate::fixed::iabs;
use crate::fixed::lemma_tdiv_bound;
use crate::fixed::tdiv;
use crate::matrix::Mat4;
use crate::vec3::UNIT_MAX;
use crate::vec3::VEC_MAX;
use crate::vec3::Vec3;
use crate::vec3::cross_scaled;
use crate::vec3::dot_scaled;
use crate::vec3::lemma_cross_orthogonal;
use crate::vec3::lemma_dot_tdiv_bound;
use crate::vec3::lemma_mul_bound;
use crate::vec3::normalize;
use crate::vec3::scross;
use crate::vec3::sdescale;
use crate::vec3::sdot;
use crate::vec3::snorm2;
use crate::vec3::snormalize;

verus! {

/// Bound on the view-matrix entries produced from a camera within
/// [`VEC_MAX`]: the translation column dominates.
pub const VIEW_MAX: i64 = 6_000_000_000;

/// An eye position, a look direction and a world-up hint.  The direction
/// and the hint need be neither orthogonal nor unit length; the basis
/// construction normalizes and orthogonalizes them.
#[derive(Clone, Copy, PartialEq, Eq, Structural, Debug)]
pub struct Camera {
    pub position: Vec3,
    pub direction: Vec3,
    pub up: Vec3,
}

impl Camera {
    /// All components within the range the basis arithmetic accepts.
    pub open spec fn bounded(self) -> bool {
        &&& self.position.bounded(VEC_MAX as int)
        &&& self.direction.bounded(VEC_MAX as int)
        &&& self.up.bounded(VEC_MAX as int)
    }
}

/// The normalized look direction.
pub open spec fn sforward(c: Camera) -> (int, int, int) {
    snormalize(c.direction.s())
}

/// The un-normalized right vector: the cross product of the up hint with the
/// forward vector, scaled back once.
pub open spec fn sright_raw(c: Camera) -> (int, int, int) {
    sdescale(scross(c.up.s(), sforward(c)))
}

/// The normalized right vector.
pub open spec fn sright(c: Camera) -> (int, int, int) {
    snormalize(sright_raw(c))
}

/// The derived up vector: the cross product of forward with right, scaled
/// back once.  No further normalization: for an orthonormal `f` and `s` it
/// is already unit length.
pub open spec fn sup(c: Camera) -> (int, int, int) {
    sdescale(scross(sforward(c), sright(c)))
}

/// A camera is degenerate when its direction has zero length or the up hint
/// is parallel to it, which makes the right vector vanish.
pub open spec fn degenerate(c: Camera) -> bool {
    snorm2(c.direction.s()) == 0 || snorm2(sright_raw(c)) == 0
}

/// The translation of the view transform: the position projected on each
/// basis vector and negated.
pub open spec fn strans(c: Camera) -> (int, int, int) {
    (
        -tdiv(sdot(c.position.s(), sright(c)), FX_ONE as int),
        -tdiv(sdot(c.position.s(), sup(c)), FX_ONE as int),
        -tdiv(sdot(c.position.s(), sforward(c)), FX_ONE as int),
    )
}

/// The right/up/forward basis of a camera; `None` for a degenerate camera.
pub fn camera_basis(c: &Camera) -> (r: Option<(Vec3, Vec3, Vec3)>)
    requires
        c.bounded(),
    ensures
        r is Some <==> !degenerate(*c),
        r is Some ==> {
            &&& r.unwrap().0.s() == sright(*c)
            &&& r.unwrap().1.s() == sup(*c)
            &&& r.unwrap().2.s() == sforward(*c)
            &&& r.unwrap().0.bounded(UNIT_MAX as int)
            &&& r.unwrap().1.bounded(2 * UNIT_MAX as int)
            &&& r.unwrap().2.bounded(UNIT_MAX as int)
        },
{
    let f = match normalize(&c.direction) {
        Some(f) => f,
        None => {
            return None;
        },
    };
    let s_raw = cross_scaled(&c.up, &f);
    proof {
        lemma_cross_descale_bound(c.up.s(), f.s(), VEC_MAX as int, UNIT_MAX as int);
    }
    let s = match normalize(&s_raw) {
        Some(s) => s,
        None => {
            return None;
        },
    };
    let u = cross_scaled(&f, &s);
    proof {
        lemma_cross_descale_bound(f.s(), s.s(), UNIT_MAX as int, UNIT_MAX as int);
    }
    Some((s, u, f))
}

/// Each scaled-back component of a cross product is bounded by twice the
/// product of the factors' component bounds, divided by the scale.
pub proof fn lemma_cross_descale_bound(a: (int, int, int), b: (int, int, int), ma: int, mb: int)
    requires
        0 <= ma,
        0 <= mb,
        iabs(a.0) <= ma && iabs(a.1) <= ma && iabs(a.2) <= ma,
        iabs(b.0) <= mb && iabs(b.1) <= mb && iabs(b.2) <= mb,
    ensures
        iabs(sdescale(scross(a, b)).0) <= 2 * (ma * mb) / FX_ONE as int,
        iabs(sdescale(scross(a, b)).1) <= 2 * (ma * mb) / FX_ONE as int,
        iabs(sdescale(scross(a, b)).2) <= 2 * (ma * mb) / FX_ONE as int,
{
    lemma_mul_bound(a.1, b.2, ma, mb);
    lemma_mul_bound(a.2, b.1, ma, mb);
    lemma_mul_bound(a.2, b.0, ma, mb);
    lemma_mul_bound(a.0, b.2, ma, mb);
    lemma_mul_bound(a.0, b.1, ma, mb);
    lemma_mul_bound(a.1, b.0, ma, mb);
    lemma_tdiv_bound(scross(a, b).0, FX_ONE as int, 2 * (ma * mb));
    lemma_tdiv_bound(scross(a, b).1, FX_ONE as int, 2 * (ma * mb));
    lemma_tdiv_bound(scross(a, b).2, FX_ONE as int, 2 * (ma * mb));
}

/// The view matrix of a camera: basis vectors in the rows, the projected and
/// negated position as the translation column; `None` for a degenerate
/// camera.
pub fn view_matrix(c: &Camera) -> (r: Option<Mat4>)
    requires
        c.bounded(),
    ensures
        r is Some <==> !degenerate(*c),
        r is Some ==> {
            &&& (r.unwrap().m00 as int, r.unwrap().m01 as int, r.unwrap().m02 as int) == sright(*c)
            &&& (r.unwrap().m10 as int, r.unwrap().m11 as int, r.unwrap().m12 as int) == sup(*c)
            &&& (r.unwrap().m20 as int, r.unwrap().m21 as int, r.unwrap().m22 as int) == sforward(
                *c,
            )
            &&& (r.unwrap().m03 as int, r.unwrap().m13 as int, r.unwrap().m23 as int) == strans(*c)
            &&& r.unwrap().m30 == 0 && r.unwrap().m31 == 0 && r.unwrap().m32 == 0
            &&& r.unwrap().m33 == FX_ONE
            &&& r.unwrap().bounded(VIEW_MAX as int)
        },
{
    let (s, u, f) = match camera_basis(c) {
        Some(basis) => basis,
        None => {
            return None;
        },
    };
    let px = dot_scaled(&c.position, &s);
    let py = dot_scaled(&c.position, &u);
    let pz = dot_scaled(&c.position, &f);
    proof {
        lemma_dot_tdiv_bound(c.position.s(), s.s(), VEC_MAX as int, UNIT_MAX as int);
        lemma_dot_tdiv_bound(c.position.s(), u.s(), VEC_MAX as int, 2 * UNIT_MAX as int);
        lemma_dot_tdiv_bound(c.position.s(), f.s(), VEC_MAX as int, UNIT_MAX as int);
    }
    Some(
        Mat4 {
            m00: s.x,
            m01: s.y,
            m02: s.z,
            m03: -px,
            m10: u.x,
            m11: u.y,
            m12: u.z,
            m13: -py,
            m20: f.x,
            m21: f.y,
            m22: f.z,
            m23: -pz,
            m30: 0,
            m31: 0,
            m32: 0,
            m33: FX_ONE,
        },
    )
}

/// The exact orthogonality at the heart of the basis construction: before
/// fixed-point truncation, the cross product of the up hint with the forward
/// vector is orthogonal to both, and the cross product of the forward vector
/// with the right vector is orthogonal to both of those.  So the exact
/// right/up/forward triple has pairwise dot products zero; the executable
/// basis perturbs each product only by the component truncations.
pub proof fn lemma_camera_basis_orthogonal(up: (int, int, int), f: (int, int, int))
    ensures
        sdot(scross(up, f), up) == 0,
        sdot(scross(up, f), f) == 0,
        sdot(scross(f, scross(up, f)), f) == 0,
        sdot(scross(f, scross(up, f)), scross(up, f)) == 0,
{
    lemma_cross_orthogonal(up, f);
    lemma_cross_orthogonal(f, scross(up, f));
}

} // verus!
