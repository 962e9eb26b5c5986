//! Velocity clipping: project a desired velocity onto the convex region
//! allowed by a set of contact-plane normals, so the result never points
//! into any plane.
//!
//! This is an approximate convex-cone projection: it returns the input
//! unchanged when it already satisfies every plane, otherwise the best
//! valid single-plane projection (closest to the input by squared
//! distance), and the zero vector when no single-plane projection is
//! valid (the feasible region has collapsed to the apex). It does not
//! solve general multi-plane intersections exactly; that is a documented
//! limitation, preserved deliberately.

use vstd::prelude::*;
use crate::fixed::fx_ok;
use crate::vec2::{
    spec_dist_sq, spec_dot, spec_v2_scale, spec_v2_sub, spec_v2_zero, unit_ok, v2_dist_sq, v2_dot,
    v2_ok, v2_scale, v2_sub, v2_zero, Vec2,
};

verus! {

/// Tolerance on dot products, to absorb fixed-point truncation noise and
/// to keep divisors away from zero.
pub const DOT_EPSILON: i64 = 5_000;

/// Every normal in the list is a near-unit vector.
pub open spec fn normals_ok(s: Seq<Vec2>) -> bool {
    forall|i: int| 0 <= i < s.len() ==> unit_ok(#[trigger] s[i])
}

/// `v` does not point into any of the planes, within tolerance.
pub open spec fn spec_all_valid(v: Vec2, normals: Seq<Vec2>) -> bool {
    forall|i: int| 0 <= i < normals.len() ==> spec_dot(v, #[trigger] normals[i]) >= -DOT_EPSILON
}

/// Projection of `v` onto the plane with normal `n`: `v - (v . n) n`.
pub open spec fn spec_project_onto_plane(v: Vec2, n: Vec2) -> Vec2 {
    spec_v2_sub(v, spec_v2_scale(n, spec_dot(v, n) as i64))
}

/// The candidate search from normal index `i` on: keeps the valid
/// single-plane projection closest to `v` by squared distance.
pub open spec fn spec_clip_loop(
    v: Vec2,
    normals: Seq<Vec2>,
    i: int,
    best: Vec2,
    best_d: Option<i64>,
) -> (Vec2, Option<i64>)
    decreases normals.len() - i,
{
    if i < 0 || i >= normals.len() {
        (best, best_d)
    } else {
        let n = normals[i];
        if spec_dot(v, n) < 0 {
            let p = spec_project_onto_plane(v, n);
            let dsq = spec_dist_sq(v, p) as i64;
            let better = match best_d {
                Option::None => true,
                Option::Some(b) => dsq < b,
            };
            if better && spec_all_valid(p, normals) {
                spec_clip_loop(v, normals, i + 1, p, Option::Some(dsq))
            } else {
                spec_clip_loop(v, normals, i + 1, best, best_d)
            }
        } else {
            spec_clip_loop(v, normals, i + 1, best, best_d)
        }
    }
}

/// What the clipper returns: `v` itself when already valid, otherwise the
/// best valid single-plane projection, otherwise zero.
pub open spec fn spec_project_velocity(v: Vec2, normals: Seq<Vec2>) -> Vec2 {
    if spec_all_valid(v, normals) {
        v
    } else {
        let r = spec_clip_loop(v, normals, 0, spec_v2_zero(), Option::None);
        if r.1 is None {
            spec_v2_zero()
        } else {
            r.0
        }
    }
}

/// The zero vector satisfies every plane.
pub proof fn lemma_zero_valid(normals: Seq<Vec2>)
    ensures
        spec_all_valid(spec_v2_zero(), normals),
{
    assert forall|i: int| 0 <= i < normals.len() implies spec_dot(
        spec_v2_zero(),
        #[trigger] normals[i],
    ) >= -DOT_EPSILON by {
        assert(spec_dot(spec_v2_zero(), normals[i]) == 0);
    }
}

/// Checks every plane against `p`.
fn all_valid(p: Vec2, normals: &Vec<Vec2>) -> (r: bool)
    requires
        v2_ok(p),
        normals_ok(normals@),
    ensures
        r == spec_all_valid(p, normals@),
{
    let mut i: usize = 0;
    while i < normals.len()
        invariant
            i <= normals.len(),
            v2_ok(p),
            normals_ok(normals@),
            forall|j: int| 0 <= j < i ==> spec_dot(p, #[trigger] normals@[j]) >= -DOT_EPSILON,
        decreases normals.len() - i,
    {
        if v2_dot(p, normals[i]) < -DOT_EPSILON {
            return false;
        }
        i = i + 1;
    }
    true
}

impl crate::engine::MoveAndSlide {
/// Projects the velocity `v` onto the convex cone defined by the contact
/// `normals`, so that the result does not point into any of them.
///
/// When `v` already satisfies every plane it is returned unchanged, bit
/// for bit. Otherwise the result is the valid single-plane projection
/// closest to `v`, or exactly zero when no single-plane projection is
/// valid. In every case the result satisfies every plane within the
/// [`DOT_EPSILON`] tolerance, and is either `v`, zero, or a single-plane
/// projection of `v`.
pub fn project_velocity(v: Vec2, normals: &Vec<Vec2>) -> (r: Vec2)
    requires
        v2_ok(v),
        normals_ok(normals@),
    ensures
        r == spec_project_velocity(v, normals@),
        v2_ok(r),
        spec_all_valid(r, normals@),
        spec_all_valid(v, normals@) ==> r == v,
        r == v || r == spec_v2_zero() || exists|i: int|
            0 <= i < normals@.len() && r == spec_project_onto_plane(v, #[trigger] normals@[i]),
{
    if all_valid(v, normals) {
        return v;
    }
    let mut best: Vec2 = v2_zero();
    let mut best_d: Option<i64> = None;
    let mut i: usize = 0;
    while i < normals.len()
        invariant
            i <= normals.len(),
            v2_ok(v),
            normals_ok(normals@),
            v2_ok(best),
            spec_clip_loop(v, normals@, i as int, best, best_d) == spec_clip_loop(
                v,
                normals@,
                0,
                spec_v2_zero(),
                Option::None,
            ),
            best_d is None ==> best == spec_v2_zero(),
            best_d is Some ==> spec_all_valid(best, normals@),
            best_d is Some ==> exists|j: int|
                0 <= j < i && best == spec_project_onto_plane(v, #[trigger] normals@[j]),
        decreases normals.len() - i,
    {
        let n: Vec2 = normals[i];
        let vn: i64 = v2_dot(v, n);
        if vn < 0 {
            let p: Vec2 = v2_sub(v, v2_scale(n, vn));
            let dsq: i64 = v2_dist_sq(v, p);
            let better: bool = match best_d {
                None => true,
                Some(b) => dsq < b,
            };
            if better {
                if all_valid(p, normals) {
                    best = p;
                    best_d = Some(dsq);
                }
            }
        }
        i = i + 1;
    }
    proof {
        if best_d is None {
            lemma_zero_valid(normals@);
        }
    }
    best
}
}

} // verus!
