//! Three-component vectors in the fixed-point scale, with the dot product,
//! the cross product and normalization, and the exact algebraic laws they
//! obey.
//!
//! The spec-level operations ([`sdot`], [`scross`]) work on triples of
//! mathematical integers; the executable operations divide back into the
//! fixed scale and are pinned to those exact formulas by their contracts.

use vstd::prelude::*;

use crate::fixed::FX_ONE;
use crate::fixed::div_trunc;
use crate::fixed::iabs;
use crate::fixed::isqrt;
use crate::fixed::lemma_sqrt_floor_bounds;
use crate::fixed::lemma_tdiv_bound;
use crate::fixed::sqrt_floor;
use crate::fixed::tdiv;

verus! {

/// Bound on the components of vectors handed to the basis construction
/// (fixed-point), so that squared norms fit a `u64` and products an `i64`.
pub const VEC_MAX: i64 = 1_000_000_000;

/// Bound on the components of a normalized vector: at most one fixed-point
/// unit in magnitude.
pub const UNIT_MAX: i64 = 1_000_000;

/// Bound on the components accepted by [`normalize`]: twice [`VEC_MAX`], so
/// that a vector scaled back from a cross product of bounded factors can
/// still be normalized, while its squared norm still fits a `u64`.
pub const NORMALIZE_MAX: i64 = 2_000_000_000;

/// A vector of three fixed-point scalars.
#[derive(Clone, Copy, PartialEq, Eq, Structural, Debug)]
pub struct Vec3 {
    pub x: i64,
    pub y: i64,
    pub z: i64,
}

impl Vec3 {
    /// The components as a triple of mathematical integers.
    pub open spec fn s(self) -> (int, int, int) {
        (self.x as int, self.y as int, self.z as int)
    }

    /// Every component is at most `m` in magnitude.
    pub open spec fn bounded(self, m: int) -> bool {
        &&& iabs(self.x as int) <= m
        &&& iabs(self.y as int) <= m
        &&& iabs(self.z as int) <= m
    }

    pub fn new(x: i64, y: i64, z: i64) -> (v: Self)
        ensures
            v == (Vec3 { x, y, z }),
    {
        Vec3 { x, y, z }
    }
}

/// The dot product of two integer triples.
pub open spec fn sdot(a: (int, int, int), b: (int, int, int)) -> int {
    a.0 * b.0 + a.1 * b.1 + a.2 * b.2
}

/// The cross product of two integer triples.
pub open spec fn scross(a: (int, int, int), b: (int, int, int)) -> (int, int, int) {
    (a.1 * b.2 - a.2 * b.1, a.2 * b.0 - a.0 * b.2, a.0 * b.1 - a.1 * b.0)
}

/// The squared norm of an integer triple.
pub open spec fn snorm2(a: (int, int, int)) -> int {
    sdot(a, a)
}

/// A triple scaled back into the fixed range: each component divided by
/// `FX_ONE`, truncated toward zero.
pub open spec fn sdescale(a: (int, int, int)) -> (int, int, int) {
    (tdiv(a.0, FX_ONE as int), tdiv(a.1, FX_ONE as int), tdiv(a.2, FX_ONE as int))
}

/// A triple normalized in fixed point: components are rescaled by `FX_ONE`
/// and divided by the rounded-down length.  Meaningful only for a triple of
/// nonzero length.
pub open spec fn snormalize(a: (int, int, int)) -> (int, int, int) {
    let r = sqrt_floor(snorm2(a) as nat) as int;
    (tdiv(a.0 * FX_ONE, r), tdiv(a.1 * FX_ONE, r), tdiv(a.2 * FX_ONE, r))
}

/// The cross product of two triples is orthogonal to both factors: its dot
/// product with either of them is exactly zero.
pub proof fn lemma_cross_orthogonal(a: (int, int, int), b: (int, int, int))
    ensures
        sdot(scross(a, b), a) == 0,
        sdot(scross(a, b), b) == 0,
{
    assert((a.1 * b.2 - a.2 * b.1) * a.0 + (a.2 * b.0 - a.0 * b.2) * a.1 + (a.0 * b.1 - a.1 * b.0)
        * a.2 == 0) by (nonlinear_arith);
    assert((a.1 * b.2 - a.2 * b.1) * b.0 + (a.2 * b.0 - a.0 * b.2) * b.1 + (a.0 * b.1 - a.1 * b.0)
        * b.2 == 0) by (nonlinear_arith);
}

/// `|a * b| <= ma * mb` whenever `|a| <= ma` and `|b| <= mb`.
pub proof fn lemma_mul_bound(a: int, b: int, ma: int, mb: int)
    requires
        -ma <= a <= ma,
        -mb <= b <= mb,
    ensures
        -(ma * mb) <= a * b <= ma * mb,
        0 <= ma * mb,
{
    assert(-(ma * mb) <= a * b <= ma * mb && 0 <= ma * mb) by (nonlinear_arith)
        requires
            -ma <= a <= ma,
            -mb <= b <= mb,
    ;
}

/// The scaled-back dot product of two componentwise-bounded triples is
/// bounded by three times the product of the bounds, divided by the scale.
pub proof fn lemma_dot_tdiv_bound(a: (int, int, int), b: (int, int, int), ma: int, mb: int)
    requires
        0 <= ma,
        0 <= mb,
        iabs(a.0) <= ma && iabs(a.1) <= ma && iabs(a.2) <= ma,
        iabs(b.0) <= mb && iabs(b.1) <= mb && iabs(b.2) <= mb,
    ensures
        iabs(tdiv(sdot(a, b), FX_ONE as int)) <= 3 * (ma * mb) / FX_ONE as int,
{
    lemma_mul_bound(a.0, b.0, ma, mb);
    lemma_mul_bound(a.1, b.1, ma, mb);
    lemma_mul_bound(a.2, b.2, ma, mb);
    lemma_tdiv_bound(sdot(a, b), FX_ONE as int, 3 * (ma * mb));
}

/// The product of two `i64` values, computed exactly in an `i128`.
pub fn mul_wide(a: i64, b: i64) -> (r: i128)
    ensures
        r == a * b,
{
    proof {
        lemma_mul_bound(a as int, b as int, 0x8000_0000_0000_0000, 0x8000_0000_0000_0000);
    }
    (a as i128) * (b as i128)
}

/// The cross product, divided back into the fixed scale.
pub fn cross_scaled(a: &Vec3, b: &Vec3) -> (r: Vec3)
    requires
        a.bounded(VEC_MAX as int),
        b.bounded(VEC_MAX as int),
    ensures
        r.s() == sdescale(scross(a.s(), b.s())),
        r.bounded(2 * VEC_MAX as int * VEC_MAX as int / FX_ONE as int),
{
    proof {
        lemma_mul_bound(a.y as int, b.z as int, VEC_MAX as int, VEC_MAX as int);
        lemma_mul_bound(a.z as int, b.y as int, VEC_MAX as int, VEC_MAX as int);
        lemma_mul_bound(a.z as int, b.x as int, VEC_MAX as int, VEC_MAX as int);
        lemma_mul_bound(a.x as int, b.z as int, VEC_MAX as int, VEC_MAX as int);
        lemma_mul_bound(a.x as int, b.y as int, VEC_MAX as int, VEC_MAX as int);
        lemma_mul_bound(a.y as int, b.x as int, VEC_MAX as int, VEC_MAX as int);
    }
    let cx: i64 = a.y * b.z - a.z * b.y;
    let cy: i64 = a.z * b.x - a.x * b.z;
    let cz: i64 = a.x * b.y - a.y * b.x;
    proof {
        lemma_tdiv_bound(cx as int, FX_ONE as int, 2 * VEC_MAX as int * VEC_MAX as int);
        lemma_tdiv_bound(cy as int, FX_ONE as int, 2 * VEC_MAX as int * VEC_MAX as int);
        lemma_tdiv_bound(cz as int, FX_ONE as int, 2 * VEC_MAX as int * VEC_MAX as int);
    }
    Vec3 { x: div_trunc(cx, FX_ONE), y: div_trunc(cy, FX_ONE), z: div_trunc(cz, FX_ONE) }
}

/// The dot product, divided back into the fixed scale.
pub fn dot_scaled(a: &Vec3, b: &Vec3) -> (r: i64)
    requires
        a.bounded(VEC_MAX as int),
        b.bounded(VEC_MAX as int),
    ensures
        r == tdiv(sdot(a.s(), b.s()), FX_ONE as int),
        iabs(r as int) <= 3 * VEC_MAX as int * VEC_MAX as int / FX_ONE as int,
{
    proof {
        lemma_mul_bound(a.x as int, b.x as int, VEC_MAX as int, VEC_MAX as int);
        lemma_mul_bound(a.y as int, b.y as int, VEC_MAX as int, VEC_MAX as int);
        lemma_mul_bound(a.z as int, b.z as int, VEC_MAX as int, VEC_MAX as int);
    }
    let d: i64 = a.x * b.x + a.y * b.y + a.z * b.z;
    proof {
        lemma_tdiv_bound(d as int, FX_ONE as int, 3 * VEC_MAX as int * VEC_MAX as int);
    }
    div_trunc(d, FX_ONE)
}

/// Normalize a vector to (fixed-point) unit length; `None` when the vector
/// is zero, the one degenerate input.
///
/// Each output component is the input component rescaled by `FX_ONE` and
/// divided by the rounded-down length, so the output has length one up to
/// the truncation of its components.
pub fn normalize(v: &Vec3) -> (r: Option<Vec3>)
    requires
        v.bounded(NORMALIZE_MAX as int),
    ensures
        r is Some <==> snorm2(v.s()) != 0,
        r is Some ==> r.unwrap().s() == snormalize(v.s()),
        r is Some ==> r.unwrap().bounded(UNIT_MAX as int),
{
    proof {
        lemma_mul_bound(v.x as int, v.x as int, NORMALIZE_MAX as int, NORMALIZE_MAX as int);
        lemma_mul_bound(v.y as int, v.y as int, NORMALIZE_MAX as int, NORMALIZE_MAX as int);
        lemma_mul_bound(v.z as int, v.z as int, NORMALIZE_MAX as int, NORMALIZE_MAX as int);
        assert(v.x as int * v.x as int >= 0) by (nonlinear_arith);
        assert(v.y as int * v.y as int >= 0) by (nonlinear_arith);
        assert(v.z as int * v.z as int >= 0) by (nonlinear_arith);
    }
    let n2: i128 = mul_wide(v.x, v.x) + mul_wide(v.y, v.y) + mul_wide(v.z, v.z);
    let root: u64 = isqrt(n2 as u64);
    if root == 0 {
        proof {
            lemma_sqrt_floor_bounds(n2 as nat);
            assert((n2 as int) < (root as int + 1) * (root as int + 1));
            assert(n2 == 0) by (nonlinear_arith)
                requires
                    root == 0,
                    (n2 as int) < (root as int + 1) * (root as int + 1),
                    n2 >= 0,
            ;
        }
        None
    } else {
        proof {
            lemma_sqrt_floor_bounds(n2 as nat);
            assert(root as int * root as int <= n2 as int);
            assert(root as int * root as int >= 1) by (nonlinear_arith)
                requires
                    root >= 1,
            ;
            assert(root <= 4_000_000_000) by (nonlinear_arith)
                requires
                    root as int * root as int <= 12_000_000_000_000_000_000,
                    root >= 1,
            ;
            lemma_normalized_component_in_unit_range(v.x as int, n2 as int, root as int);
            lemma_normalized_component_in_unit_range(v.y as int, n2 as int, root as int);
            lemma_normalized_component_in_unit_range(v.z as int, n2 as int, root as int);
            lemma_mul_bound(v.x as int, FX_ONE as int, NORMALIZE_MAX as int, FX_ONE as int);
            lemma_mul_bound(v.y as int, FX_ONE as int, NORMALIZE_MAX as int, FX_ONE as int);
            lemma_mul_bound(v.z as int, FX_ONE as int, NORMALIZE_MAX as int, FX_ONE as int);
        }
        let rx: i64 = div_trunc(v.x * FX_ONE, root as i64);
        let ry: i64 = div_trunc(v.y * FX_ONE, root as i64);
        let rz: i64 = div_trunc(v.z * FX_ONE, root as i64);
        Some(Vec3 { x: rx, y: ry, z: rz })
    }
}

/// A component of a vector, rescaled by `FX_ONE` and divided by the
/// rounded-down length of the vector, is at most one fixed-point unit: the
/// component's square is bounded by the squared norm, so its magnitude is
/// bounded by the root.
proof fn lemma_normalized_component_in_unit_range(c: int, n2: int, root: int)
    requires
        root >= 1,
        c * c <= n2,
        n2 < (root + 1) * (root + 1),
    ensures
        iabs(tdiv(c * FX_ONE as int, root)) <= FX_ONE as int,
{
    assert(-root <= c <= root) by (nonlinear_arith)
        requires
            root >= 1,
            c * c <= n2,
            n2 < (root + 1) * (root + 1),
    ;
    lemma_mul_bound(c, FX_ONE as int, root, FX_ONE as int);
    lemma_tdiv_bound(c * FX_ONE as int, root, root * FX_ONE as int);
    assert(root * FX_ONE as int / root == FX_ONE as int) by {
        vstd::arithmetic::div_mod::lemma_div_multiples_vanish(FX_ONE as int, root);
    }
}

} // verus!
