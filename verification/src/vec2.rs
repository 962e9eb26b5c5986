//! 2D vectors over the fixed-point arithmetic of [`crate::fixed`].
//!
//! Positions, velocities, displacements and contact normals are all
//! [`Vec2`] values. A contact normal is expected to have (roughly) unit
//! length, that is a raw length near [`crate::fixed::SCALE`].

use vstd::prelude::*;
use crate::fixed::{
    fx_add, fx_div, fx_mul, fx_ok, fx_sub, isqrt_u128, mul_wide, div_clamp, clamp_s, div_t,
    spec_fx_add, spec_fx_div, spec_fx_mul, spec_fx_sub, spec_isqrt, FX_LIMIT, SCALE,
};

verus! {

/// A 2D vector in raw fixed-point coordinates.
#[derive(Clone, Copy, Debug, PartialEq, Eq, Structural)]
pub struct Vec2 {
    pub x: i64,
    pub y: i64,
}

/// Both components are within the representable range.
pub open spec fn v2_ok(v: Vec2) -> bool {
    fx_ok(v.x) && fx_ok(v.y)
}

/// The zero vector.
pub open spec fn spec_v2_zero() -> Vec2 {
    Vec2 { x: 0, y: 0 }
}

/// Componentwise saturating sum.
pub open spec fn spec_v2_add(a: Vec2, b: Vec2) -> Vec2 {
    Vec2 {
        x: spec_fx_add(a.x as int, b.x as int) as i64,
        y: spec_fx_add(a.y as int, b.y as int) as i64,
    }
}

/// Componentwise saturating difference.
pub open spec fn spec_v2_sub(a: Vec2, b: Vec2) -> Vec2 {
    Vec2 {
        x: spec_fx_sub(a.x as int, b.x as int) as i64,
        y: spec_fx_sub(a.y as int, b.y as int) as i64,
    }
}

/// Componentwise negation.
pub open spec fn spec_v2_neg(v: Vec2) -> Vec2 {
    Vec2 { x: (-(v.x as int)) as i64, y: (-(v.y as int)) as i64 }
}

/// The vector scaled by a fixed-point factor `k`.
pub open spec fn spec_v2_scale(v: Vec2, k: i64) -> Vec2 {
    Vec2 {
        x: spec_fx_mul(v.x as int, k as int) as i64,
        y: spec_fx_mul(v.y as int, k as int) as i64,
    }
}

/// Fixed-point dot product (rescaled by `SCALE`, truncated, saturated).
pub open spec fn spec_dot(a: Vec2, b: Vec2) -> int {
    clamp_s(div_t(a.x * b.x + a.y * b.y, SCALE as int))
}

/// Raw euclidean length (integer square root of the raw squared length),
/// saturated.
pub open spec fn spec_len(v: Vec2) -> int {
    clamp_s(spec_isqrt(v.x * v.x + v.y * v.y))
}

/// The unit vector along `v` (meaningful when `spec_len(v) > 0`).
pub open spec fn spec_v2_normalize(v: Vec2) -> Vec2 {
    let l = spec_len(v);
    Vec2 {
        x: spec_fx_div(v.x as int, l) as i64,
        y: spec_fx_div(v.y as int, l) as i64,
    }
}

/// Squared fixed-point distance between `a` and `b`.
pub open spec fn spec_dist_sq(a: Vec2, b: Vec2) -> int {
    spec_dot(spec_v2_sub(a, b), spec_v2_sub(a, b))
}

/// Slack allowed on a unit vector's raw length: converting an exact unit
/// vector to fixed point moves each component by at most half a tick, and
/// the integer square root truncates by at most one more.
pub const UNIT_SLACK: i64 = 2;

/// A near-unit vector: the form in which the geometry provider hands over
/// contact and surface normals.
pub open spec fn unit_ok(n: Vec2) -> bool {
    v2_ok(n) && SCALE - UNIT_SLACK <= spec_len(n) <= SCALE + UNIT_SLACK
}

/// The zero vector.
pub fn v2_zero() -> (r: Vec2)
    ensures
        r == spec_v2_zero(),
{
    Vec2 { x: 0, y: 0 }
}

/// Componentwise saturating sum.
pub fn v2_add(a: Vec2, b: Vec2) -> (r: Vec2)
    ensures
        r == spec_v2_add(a, b),
        v2_ok(r),
{
    Vec2 { x: fx_add(a.x, b.x), y: fx_add(a.y, b.y) }
}

/// Componentwise saturating difference.
pub fn v2_sub(a: Vec2, b: Vec2) -> (r: Vec2)
    ensures
        r == spec_v2_sub(a, b),
        v2_ok(r),
{
    Vec2 { x: fx_sub(a.x, b.x), y: fx_sub(a.y, b.y) }
}

/// Componentwise negation.
pub fn v2_neg(v: Vec2) -> (r: Vec2)
    requires
        v2_ok(v),
    ensures
        r == spec_v2_neg(v),
        v2_ok(r),
{
    Vec2 { x: -v.x, y: -v.y }
}

/// The vector scaled by a fixed-point factor `k`.
pub fn v2_scale(v: Vec2, k: i64) -> (r: Vec2)
    requires
        v2_ok(v),
        fx_ok(k),
    ensures
        r == spec_v2_scale(v, k),
        v2_ok(r),
{
    Vec2 { x: fx_mul(v.x, k), y: fx_mul(v.y, k) }
}

/// Fixed-point dot product.
pub fn v2_dot(a: Vec2, b: Vec2) -> (r: i64)
    requires
        v2_ok(a),
        v2_ok(b),
    ensures
        r == spec_dot(a, b),
        fx_ok(r),
{
    let px: i128 = mul_wide(a.x, b.x);
    let py: i128 = mul_wide(a.y, b.y);
    div_clamp(px + py, SCALE)
}

/// Raw euclidean length.
pub fn v2_len(v: Vec2) -> (r: i64)
    requires
        v2_ok(v),
    ensures
        r == spec_len(v),
        0 <= r <= FX_LIMIT,
{
    let px: i128 = mul_wide(v.x, v.x);
    let py: i128 = mul_wide(v.y, v.y);
    proof {
        assert((v.x as int) * (v.x as int) >= 0) by (nonlinear_arith);
        assert((v.y as int) * (v.y as int) >= 0) by (nonlinear_arith);
    }
    let s: u128 = (px + py) as u128;
    let root: u128 = isqrt_u128(s);
    proof {
        assert(root <= 2_000_000_000_000) by (nonlinear_arith)
            requires
                (root as int) * (root as int) <= 2_000_000_000_000_000_000_000_000,
                root >= 0u128,
        ;
    }
    if root > FX_LIMIT as u128 {
        FX_LIMIT
    } else {
        root as i64
    }
}

/// Splits `v` into its direction (a unit vector) and its raw length;
/// `None` when `v` is the zero vector.
pub fn v2_normalize(v: Vec2) -> (r: Option<(Vec2, i64)>)
    requires
        v2_ok(v),
    ensures
        r is None <==> spec_len(v) == 0,
        r matches Some(dl) ==> dl.0 == spec_v2_normalize(v) && dl.1 == spec_len(v) && v2_ok(dl.0)
            && 0 < dl.1 <= FX_LIMIT,
{
    let len: i64 = v2_len(v);
    if len == 0 {
        None
    } else {
        Some((Vec2 { x: fx_div(v.x, len), y: fx_div(v.y, len) }, len))
    }
}

/// Squared fixed-point distance between `a` and `b`.
pub fn v2_dist_sq(a: Vec2, b: Vec2) -> (r: i64)
    requires
        v2_ok(a),
        v2_ok(b),
    ensures
        r == spec_dist_sq(a, b),
        fx_ok(r),
{
    let d: Vec2 = v2_sub(a, b);
    v2_dot(d, d)
}

} // verus!
