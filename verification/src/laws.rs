//! Library-wide laws: properties of whole move-and-slide runs, proved from
//! the step relations of [`crate::engine`].
//!
//! (Per-function laws live in the `ensures` of the functions themselves:
//! the clipper's feasibility, no-op and projection-shape guarantees on
//! [`crate::clip::project_velocity`], the trapped rule on
//! [`crate::engine::MoveAndSlide::feed_sweep`], and the anti-jitter rule
//! on [`crate::engine::MoveAndSlide::finish_contacts`].)

use vstd::prelude::*;
use vstd::arithmetic::div_mod::{
    lemma_div_is_ordered, lemma_div_multiples_vanish, lemma_div_pos_is_pos,
};
use crate::fixed::{fx_ok, spec_isqrt, SCALE};
use crate::vec2::{
    spec_dot, spec_len, spec_v2_add, spec_v2_neg, spec_v2_scale, spec_v2_zero, v2_ok, Vec2,
};
use crate::clip::DOT_EPSILON;
use crate::depenetrate::spec_depenetrate;
use crate::engine::{
    spec_apply_contact_rel, spec_depen_of, spec_feed_initial_rel, spec_feed_sweep_rel,
    spec_initial_contacts, spec_pull_back, Contact, ContactResponse, MoveAndSlide,
    MoveAndSlideHitData, RawSweepHit, MIN_DISTANCE,
};
use crate::driver::{closure_step, runs_with};

verus! {

/// Adding the zero vector changes nothing (for in-range vectors).
pub proof fn lemma_v2_add_zero(p: Vec2)
    requires
        v2_ok(p),
    ensures
        spec_v2_add(p, spec_v2_zero()) == p,
{
}

/// Scaling the zero vector gives the zero vector.
pub proof fn lemma_v2_scale_zero(k: i64)
    ensures
        spec_v2_scale(spec_v2_zero(), k) == spec_v2_zero(),
{
}

/// No-obstacle invariant: when the scene is empty — the initial overlap
/// query reports no contacts and the sweep hits nothing — the move ends at
/// `position + velocity * delta_time` (in the saturating fixed-point
/// arithmetic) with the velocity unchanged.
pub proof fn law_no_obstacle(s0: MoveAndSlide, s1: MoveAndSlide, s2: MoveAndSlide)
    requires
        s0.wf(),
        spec_feed_initial_rel(s0, Seq::<Contact>::empty(), s1),
        s1.phase is Sweeping,
        spec_feed_sweep_rel(s1, Option::<RawSweepHit>::None, s2),
    ensures
        s2.position == spec_v2_add(s0.position, spec_v2_scale(s0.velocity, s0.time_left)),
        s2.velocity == s0.velocity,
        s2.phase is Finished,
{
    let skin = s0.config.skin_width;
    assert(spec_initial_contacts(Seq::<Contact>::empty(), skin) =~= Seq::<(Vec2, i64)>::empty());
    assert(spec_depenetrate(spec_depen_of(s0.config), s0.length_unit, Seq::<(Vec2, i64)>::empty())
        == spec_v2_zero());
    lemma_v2_add_zero(s0.position);
}

/// Zero-velocity idempotence: with zero velocity the move finishes right
/// after the initial depenetration pass: the position is the
/// post-depenetration position and the velocity stays exactly zero.
pub proof fn law_zero_velocity(s0: MoveAndSlide, contacts: Seq<Contact>, s1: MoveAndSlide)
    requires
        s0.wf(),
        s0.velocity == spec_v2_zero(),
        spec_feed_initial_rel(s0, contacts, s1),
    ensures
        s1.phase is Finished,
        s1.velocity == spec_v2_zero(),
        s1.position == spec_v2_add(
            s0.position,
            spec_depenetrate(
                spec_depen_of(s0.config),
                s0.length_unit,
                spec_initial_contacts(contacts, s0.config.skin_width),
            ),
        ),
{
    lemma_v2_scale_zero(s0.time_left);
    assert(spec_isqrt(0) == 0);
}

/// Skin-width lower bound: when a blocking sweep is pulled back and still
/// allows movement, the remaining gap to the hit (raw time of impact minus
/// the distance actually moved) is at least the skin width. This holds of
/// every direction and normal: the pull-back clamps their alignment to at
/// most one (`SCALE`), which for unit vectors is a no-op.
pub proof fn law_skin_margin(hit_distance: i64, hit_normal: Vec2, dir: Vec2, skin_width: i64)
    requires
        fx_ok(hit_distance),
        hit_distance >= 0,
        fx_ok(skin_width),
        skin_width >= 0,
    ensures
        spec_pull_back(hit_distance, hit_normal, dir, skin_width) == 0 || hit_distance
            - spec_pull_back(hit_distance, hit_normal, dir, skin_width) >= skin_width,
{
    let d0 = spec_dot(dir, spec_v2_neg(hit_normal));
    let d = if d0 < DOT_EPSILON {
        DOT_EPSILON as int
    } else if d0 > SCALE {
        SCALE as int
    } else {
        d0
    };
    let num = (skin_width as int) * (SCALE as int);
    assert(0 < d <= SCALE);
    assert(num >= skin_width * d && num >= 0) by (nonlinear_arith)
        requires
            skin_width >= 0,
            0 < d <= 1_000_000,
            num == skin_width * 1_000_000,
    ;
    lemma_div_is_ordered((skin_width as int) * d, num, d);
    lemma_div_multiples_vanish(skin_width as int, d);
    assert((skin_width as int) * d == d * (skin_width as int)) by (nonlinear_arith);
    lemma_div_pos_is_pos(num, d);
}

/// A finished state takes no further closure-answered step: a run from it
/// stays where it is.
pub proof fn lemma_runs_finished<FO, FS, FC>(
    overlaps: FO,
    sweep: FS,
    on_contact: FC,
    a: MoveAndSlide,
    b: MoveAndSlide,
    n: nat,
) where
    FO: Fn(Vec2, i64, i64) -> Vec<Contact>,
    FS: Fn(Vec2, i64, Vec2, i64) -> Option<RawSweepHit>,
    FC: Fn(MoveAndSlideHitData) -> ContactResponse,

    requires
        runs_with(overlaps, sweep, on_contact, a, b, n),
        a.phase is Finished,
    ensures
        b == a,
{
    if n != 0 {
        let mid = choose|mid: MoveAndSlide|
            #[trigger] closure_step(overlaps, sweep, on_contact, a, mid) && runs_with(
                overlaps,
                sweep,
                on_contact,
                mid,
                b,
                (n - 1) as nat,
            );
        assert(!closure_step(overlaps, sweep, on_contact, a, mid));
    }
}

/// No-obstacle invariant, end to end through the one-call driver's
/// contract: when the caller's query closures provably report an empty
/// scene (no overlaps, no sweep hit), every closure-answered run from a
/// begin state to a finished state keeps the velocity unchanged and, as
/// long as the iteration budget and the remaining movement allow any
/// motion at all, ends at `position + velocity * time` exactly; otherwise
/// it ends where it began.
pub proof fn law_driver_no_obstacle<FO, FS, FC>(
    overlaps: FO,
    sweep: FS,
    on_contact: FC,
    s: MoveAndSlide,
    f: MoveAndSlide,
    n: nat,
) where
    FO: Fn(Vec2, i64, i64) -> Vec<Contact>,
    FS: Fn(Vec2, i64, Vec2, i64) -> Option<RawSweepHit>,
    FC: Fn(MoveAndSlideHitData) -> ContactResponse,

    requires
        forall|args: (Vec2, i64, i64), r: Vec<Contact>|
            #[trigger] call_ensures(overlaps, args, r) ==> r@.len() == 0,
        forall|args: (Vec2, i64, Vec2, i64), r: Option<RawSweepHit>|
            #[trigger] call_ensures(sweep, args, r) ==> r is None,
        s.wf(),
        s.phase is InitialOverlaps,
        runs_with(overlaps, sweep, on_contact, s, f, n),
        f.phase is Finished,
    ensures
        f.velocity == s.velocity,
        s.iterations_left > 0 && spec_len(spec_v2_scale(s.velocity, s.time_left)) >= MIN_DISTANCE
            ==> f.position == spec_v2_add(s.position, spec_v2_scale(s.velocity, s.time_left)),
        !(s.iterations_left > 0 && spec_len(spec_v2_scale(s.velocity, s.time_left))
            >= MIN_DISTANCE) ==> f.position == s.position,
{
    assert(n != 0);
    let mid = choose|mid: MoveAndSlide|
        #[trigger] closure_step(overlaps, sweep, on_contact, s, mid) && runs_with(
            overlaps,
            sweep,
            on_contact,
            mid,
            f,
            (n - 1) as nat,
        );
    let cs = choose|cs: Vec<Contact>|
        #[trigger] call_ensures(overlaps, (s.position, s.rotation, s.config.skin_width), cs)
            && spec_feed_initial_rel(s, cs@, mid);
    assert(spec_initial_contacts(cs@, s.config.skin_width).len() == 0);
    assert(spec_initial_contacts(cs@, s.config.skin_width) =~= Seq::<(Vec2, i64)>::empty());
    assert(spec_depenetrate(
        spec_depen_of(s.config),
        s.length_unit,
        Seq::<(Vec2, i64)>::empty(),
    ) == spec_v2_zero());
    lemma_v2_add_zero(s.position);
    if s.iterations_left > 0 && spec_len(spec_v2_scale(s.velocity, s.time_left)) >= MIN_DISTANCE {
        // One sweep begins; the closures answer it with no hit, so the full
        // sweep vector is applied and the run finishes there.
        assert(mid.phase is Sweeping);
        let mid2 = choose|mid2: MoveAndSlide|
            #[trigger] closure_step(overlaps, sweep, on_contact, mid, mid2) && runs_with(
                overlaps,
                sweep,
                on_contact,
                mid2,
                f,
                (n - 2) as nat,
            );
        let hit = choose|hit: Option<RawSweepHit>|
            #[trigger] call_ensures(
                sweep,
                (mid.position, mid.rotation, mid.sweep, mid.sweep_distance),
                hit,
            ) && spec_feed_sweep_rel(mid, hit, mid2);
        assert(hit is None);
        lemma_runs_finished(overlaps, sweep, on_contact, mid2, f, (n - 2) as nat);
    } else {
        // The move ends right after the (empty) initial pass.
        assert(mid.phase is Finished);
        lemma_runs_finished(overlaps, sweep, on_contact, mid, f, (n - 1) as nat);
    }
}

/// Plane-set growth: offering a contact never removes or changes a plane
/// already in the set; it appends at most one normal. Together with
/// `feed_sweep`, which seeds the set with the configured planes, the plane
/// set used for clipping is always a superset of the seed planes.
pub proof fn law_planes_grow(
    pre: MoveAndSlide,
    contact: Contact,
    response: ContactResponse,
    post: MoveAndSlide,
    cont: bool,
)
    requires
        spec_apply_contact_rel(pre, contact, response, post, cont),
    ensures
        post.planes@.len() >= pre.planes@.len(),
        forall|i: int| 0 <= i < pre.planes@.len() ==> post.planes@[i] == pre.planes@[i],
{
}

} // verus!
