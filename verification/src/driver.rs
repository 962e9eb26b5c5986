//! A one-call driver for the engine: runs a whole move-and-slide timestep,
//! asking the caller's geometry closures for each query.
//!
//! The contract ties the result to the step machine *and* to the closures:
//! the returned pose is the pose of a `Finished` state that the machine
//! reaches from the starting state through its verified step relations,
//! where every fed value is an actual answer of the caller's closures (it
//! satisfies their postconditions on the engine's own request arguments) —
//! see [`runs_with`]. So whatever the caller can prove of the closures'
//! answers carries over to the run: a caller whose queries provably report
//! an empty scene can conclude the no-obstacle law of the result. Callers
//! that need finer control can drive [`crate::engine::MoveAndSlide`] step
//! by step instead.

use vstd::prelude::*;
use crate::fixed::{fx_ok, spec_fx_add};
use crate::vec2::{v2_ok, Vec2};
use crate::engine::{
    config_ok, contact_list_ok, raw_hit_ok, response_ok, spec_apply_contact_rel,
    spec_contact_context, spec_feed_initial_rel, spec_feed_sweep_rel, spec_finish_rel, Contact,
    ContactResponse, MoveAndSlide, MoveAndSlideConfig, MoveAndSlideHitData, MoveAndSlideOutput,
    Phase, RawSweepHit, Request,
};

verus! {

/// The offered contacts `contacts[i..]` are worked through `apply_contact`
/// steps, each with a response that the `on_contact` closure can actually
/// give for the contact's context; collection stops early when a step
/// answers stop.
pub open spec fn spec_offer_rel<FC: Fn(MoveAndSlideHitData) -> ContactResponse>(
    on_contact: FC,
    a: MoveAndSlide,
    contacts: Seq<Contact>,
    i: int,
    b: MoveAndSlide,
) -> bool
    decreases contacts.len() - i,
{
    if i < 0 || i >= contacts.len() {
        a == b
    } else {
        exists|r: ContactResponse, cont: bool, mid: MoveAndSlide|
            {
                &&& call_ensures(on_contact, (spec_contact_context(a, contacts[i]),), r)
                &&& #[trigger] spec_apply_contact_rel(a, contacts[i], r, mid, cont)
                &&& if cont {
                    spec_offer_rel(on_contact, mid, contacts, i + 1, b)
                } else {
                    mid == b
                }
            }
    }
}

/// One step of the engine, answered by the given closures on the engine's
/// own request for the state `a`: the initial depenetration pass consumes
/// an actual `overlaps` answer, a sweep consumes an actual `sweep` answer,
/// and a whole contact-collection round consumes an actual `overlaps`
/// answer offered contact by contact with actual `on_contact` answers,
/// then finishes.
pub open spec fn closure_step<FO, FS, FC>(
    overlaps: FO,
    sweep: FS,
    on_contact: FC,
    a: MoveAndSlide,
    b: MoveAndSlide,
) -> bool where
    FO: Fn(Vec2, i64, i64) -> Vec<Contact>,
    FS: Fn(Vec2, i64, Vec2, i64) -> Option<RawSweepHit>,
    FC: Fn(MoveAndSlideHitData) -> ContactResponse,
 {
    match a.phase {
        Phase::InitialOverlaps => exists|cs: Vec<Contact>|
            {
                &&& #[trigger] call_ensures(
                    overlaps,
                    (a.position, a.rotation, a.config.skin_width),
                    cs,
                )
                &&& spec_feed_initial_rel(a, cs@, b)
            },
        Phase::Sweeping => exists|hit: Option<RawSweepHit>|
            {
                &&& #[trigger] call_ensures(
                    sweep,
                    (a.position, a.rotation, a.sweep, a.sweep_distance),
                    hit,
                )
                &&& spec_feed_sweep_rel(a, hit, b)
            },
        Phase::Collecting => exists|cs: Vec<Contact>, mid: MoveAndSlide|
            {
                &&& call_ensures(
                    overlaps,
                    (
                        a.position,
                        a.rotation,
                        spec_fx_add(a.config.skin_width as int, a.config.skin_width as int) as i64,
                    ),
                    cs,
                )
                &&& #[trigger] spec_offer_rel(on_contact, a, cs@, 0, mid)
                &&& spec_finish_rel(mid, b)
            },
        Phase::Finished => false,
    }
}

/// `b` is reachable from `a` in exactly `n` engine steps, each answered by
/// the given closures.
pub open spec fn runs_with<FO, FS, FC>(
    overlaps: FO,
    sweep: FS,
    on_contact: FC,
    a: MoveAndSlide,
    b: MoveAndSlide,
    n: nat,
) -> bool where
    FO: Fn(Vec2, i64, i64) -> Vec<Contact>,
    FS: Fn(Vec2, i64, Vec2, i64) -> Option<RawSweepHit>,
    FC: Fn(MoveAndSlideHitData) -> ContactResponse,

    decreases n,
{
    if n == 0 {
        a == b
    } else {
        exists|mid: MoveAndSlide|
            #[trigger] closure_step(overlaps, sweep, on_contact, a, mid) && runs_with(
                overlaps,
                sweep,
                on_contact,
                mid,
                b,
                (n - 1) as nat,
            )
    }
}

/// A closure-answered run extends by one step at the end.
pub proof fn lemma_runs_snoc<FO, FS, FC>(
    overlaps: FO,
    sweep: FS,
    on_contact: FC,
    a: MoveAndSlide,
    b: MoveAndSlide,
    c: MoveAndSlide,
    n: nat,
) where
    FO: Fn(Vec2, i64, i64) -> Vec<Contact>,
    FS: Fn(Vec2, i64, Vec2, i64) -> Option<RawSweepHit>,
    FC: Fn(MoveAndSlideHitData) -> ContactResponse,

    requires
        runs_with(overlaps, sweep, on_contact, a, b, n),
        closure_step(overlaps, sweep, on_contact, b, c),
    ensures
        runs_with(overlaps, sweep, on_contact, a, c, n + 1),
    decreases n,
{
    if n == 0 {
        assert(closure_step(overlaps, sweep, on_contact, a, c));
        assert(runs_with(overlaps, sweep, on_contact, c, c, 0));
    } else {
        let mid = choose|mid: MoveAndSlide|
            #[trigger] closure_step(overlaps, sweep, on_contact, a, mid) && runs_with(
                overlaps,
                sweep,
                on_contact,
                mid,
                b,
                (n - 1) as nat,
            );
        lemma_runs_snoc(overlaps, sweep, on_contact, mid, b, c, (n - 1) as nat);
    }
}

/// A state that `begin` produces for these inputs (the bookkeeping fields
/// of later phases are left open; no step reads them before setting them).
pub open spec fn is_begin_state(
    s: MoveAndSlide,
    config: MoveAndSlideConfig,
    length_unit: i64,
    position: Vec2,
    rotation: i64,
    velocity: Vec2,
    delta_time: i64,
) -> bool {
    &&& s.wf()
    &&& s.config == config
    &&& s.length_unit == length_unit
    &&& s.rotation == rotation
    &&& s.position == position
    &&& s.velocity == velocity
    &&& s.original_velocity == velocity
    &&& s.time_left == delta_time
    &&& s.iterations_left == config.move_and_slide_iterations
    &&& s.phase is InitialOverlaps
}

/// Loop variant: the phases advance toward `Finished` within an iteration.
pub open spec fn phase_rank(p: Phase) -> int {
    match p {
        Phase::InitialOverlaps => 3,
        Phase::Sweeping => 2,
        Phase::Collecting => 1,
        Phase::Finished => 0,
    }
}

/// Runs one whole move-and-slide timestep.
///
/// `overlaps(position, rotation, margin)` must enumerate the contacts of
/// all colliders within `margin` of the shape; `sweep(position, rotation,
/// movement, max_distance)` must report the nearest blocking hit along
/// `movement`, with a raw impact distance within `max_distance` (the
/// movement's length); `on_contact` is the per-contact decision, given the
/// context of one discovered contact (return `keep` with the contact's own
/// normal and the context's position and velocity for the default
/// treatment).
///
/// The returned pose belongs to a finished state of the step machine,
/// reached from the starting state through the step relations with every
/// fed value an actual answer of these closures, so whatever the caller
/// can prove of the closures' answers holds of this run.
pub fn move_and_slide<FO, FS, FC>(
    config: MoveAndSlideConfig,
    length_unit: i64,
    position: Vec2,
    rotation: i64,
    velocity: Vec2,
    delta_time: i64,
    overlaps: &FO,
    sweep: &FS,
    on_contact: &FC,
) -> (out: MoveAndSlideOutput) where
    FO: Fn(Vec2, i64, i64) -> Vec<Contact>,
    FS: Fn(Vec2, i64, Vec2, i64) -> Option<RawSweepHit>,
    FC: Fn(MoveAndSlideHitData) -> ContactResponse,

    requires
        config_ok(config),
        fx_ok(length_unit),
        fx_ok(rotation),
        v2_ok(position),
        v2_ok(velocity),
        fx_ok(delta_time),
        delta_time >= 0,
        forall|args: (Vec2, i64, i64)| #[trigger] call_requires(*overlaps, args),
        forall|args: (Vec2, i64, i64), r: Vec<Contact>|
            #[trigger] call_ensures(*overlaps, args, r) ==> contact_list_ok(r@),
        forall|args: (Vec2, i64, Vec2, i64)| #[trigger] call_requires(*sweep, args),
        forall|args: (Vec2, i64, Vec2, i64), r: Option<RawSweepHit>|
            #[trigger] call_ensures(*sweep, args, r) ==> match r {
                Option::Some(h) => raw_hit_ok(h) && h.distance <= args.3,
                Option::None => true,
            },
        forall|args: (MoveAndSlideHitData,)| #[trigger] call_requires(*on_contact, args),
        forall|args: (MoveAndSlideHitData,), r: ContactResponse|
            #[trigger] call_ensures(*on_contact, args, r) ==> response_ok(r),
    ensures
        exists|s: MoveAndSlide, f: MoveAndSlide, n: nat|
            {
                &&& is_begin_state(s, config, length_unit, position, rotation, velocity, delta_time)
                &&& #[trigger] runs_with(*overlaps, *sweep, *on_contact, s, f, n)
                &&& f.phase is Finished
                &&& out.position == f.position
                &&& out.projected_velocity == f.velocity
            },
{
    let mut m = MoveAndSlide::begin(config, length_unit, position, rotation, velocity, delta_time);
    let ghost s0 = m;
    let ghost mut steps: nat = 0;
    loop
        invariant
            m.wf(),
            runs_with(*overlaps, *sweep, *on_contact, s0, m, steps),
            is_begin_state(s0, config, length_unit, position, rotation, velocity, delta_time),
            forall|args: (Vec2, i64, i64)| #[trigger] call_requires(*overlaps, args),
            forall|args: (Vec2, i64, i64), r: Vec<Contact>|
                #[trigger] call_ensures(*overlaps, args, r) ==> contact_list_ok(r@),
            forall|args: (Vec2, i64, Vec2, i64)| #[trigger] call_requires(*sweep, args),
            forall|args: (Vec2, i64, Vec2, i64), r: Option<RawSweepHit>|
                #[trigger] call_ensures(*sweep, args, r) ==> match r {
                    Option::Some(h) => raw_hit_ok(h) && h.distance <= args.3,
                    Option::None => true,
                },
            forall|args: (MoveAndSlideHitData,)| #[trigger] call_requires(*on_contact, args),
            forall|args: (MoveAndSlideHitData,), r: ContactResponse|
                #[trigger] call_ensures(*on_contact, args, r) ==> response_ok(r),
        ensures
            m.phase is Finished,
            runs_with(*overlaps, *sweep, *on_contact, s0, m, steps),
        decreases m.iterations_left, phase_rank(m.phase),
    {
        let ghost pre = m;
        match m.current_request() {
            Request::InitialOverlaps { position: p, rotation: rot, margin } => {
                let contacts: Vec<Contact> = overlaps(p, rot, margin);
                m.feed_initial_overlaps(&contacts);
                proof {
                    assert(call_ensures(
                        *overlaps,
                        (pre.position, pre.rotation, pre.config.skin_width),
                        contacts,
                    ) && spec_feed_initial_rel(pre, contacts@, m));
                    assert(closure_step(*overlaps, *sweep, *on_contact, pre, m));
                    lemma_runs_snoc(*overlaps, *sweep, *on_contact, s0, pre, m, steps);
                    steps = steps + 1;
                }
            },
            Request::Sweep { position: p, rotation: rot, movement } => {
                let hit: Option<RawSweepHit> = sweep(p, rot, movement, m.sweep_distance);
                m.feed_sweep(hit);
                proof {
                    assert(call_ensures(
                        *sweep,
                        (pre.position, pre.rotation, pre.sweep, pre.sweep_distance),
                        hit,
                    ) && spec_feed_sweep_rel(pre, hit, m));
                    assert(closure_step(*overlaps, *sweep, *on_contact, pre, m));
                    lemma_runs_snoc(*overlaps, *sweep, *on_contact, s0, pre, m, steps);
                    steps = steps + 1;
                }
            },
            Request::ContactOverlaps { position: p, rotation: rot, margin } => {
                let contacts: Vec<Contact> = overlaps(p, rot, margin);
                let mut i: usize = 0;
                let mut go: bool = true;
                while go && i < contacts.len()
                    invariant
                        i <= contacts.len(),
                        contact_list_ok(contacts@),
                        m.wf(),
                        m.phase is Collecting,
                        m.iterations_left == pre.iterations_left,
                        go ==> forall|b: MoveAndSlide|
                            #[trigger] spec_offer_rel(*on_contact, m, contacts@, i as int, b)
                                ==> spec_offer_rel(*on_contact, pre, contacts@, 0, b),
                        !go ==> spec_offer_rel(*on_contact, pre, contacts@, 0, m),
                        forall|args: (MoveAndSlideHitData,)|
                            #[trigger] call_requires(*on_contact, args),
                        forall|args: (MoveAndSlideHitData,), r: ContactResponse|
                            #[trigger] call_ensures(*on_contact, args, r) ==> response_ok(r),
                    decreases contacts.len() - i,
                {
                    let ghost before = m;
                    let c: Contact = contacts[i];
                    let ctx: MoveAndSlideHitData = m.contact_context(&c);
                    let response: ContactResponse = on_contact(ctx);
                    let cont: bool = m.apply_contact(&c, &response);
                    proof {
                        assert(call_ensures(
                            *on_contact,
                            (spec_contact_context(before, c),),
                            response,
                        ));
                        assert(spec_apply_contact_rel(before, c, response, m, cont));
                        if cont {
                            assert forall|b: MoveAndSlide|
                                #[trigger] spec_offer_rel(
                                    *on_contact,
                                    m,
                                    contacts@,
                                    i + 1 as int,
                                    b,
                                ) implies spec_offer_rel(
                                *on_contact,
                                pre,
                                contacts@,
                                0,
                                b,
                            ) by {
                                assert(spec_offer_rel(*on_contact, before, contacts@, i as int, b));
                            }
                        } else {
                            assert(spec_offer_rel(*on_contact, before, contacts@, i as int, m));
                        }
                    }
                    go = cont;
                    i = i + 1;
                }
                proof {
                    if go {
                        assert(spec_offer_rel(*on_contact, m, contacts@, i as int, m));
                    }
                    assert(spec_offer_rel(*on_contact, pre, contacts@, 0, m));
                }
                let ghost before_finish = m;
                m.finish_contacts();
                proof {
                    assert(call_ensures(
                        *overlaps,
                        (
                            pre.position,
                            pre.rotation,
                            spec_fx_add(
                                pre.config.skin_width as int,
                                pre.config.skin_width as int,
                            ) as i64,
                        ),
                        contacts,
                    ));
                    assert(spec_finish_rel(before_finish, m));
                    assert(closure_step(*overlaps, *sweep, *on_contact, pre, m));
                    lemma_runs_snoc(*overlaps, *sweep, *on_contact, s0, pre, m, steps);
                    steps = steps + 1;
                }
            },
            Request::Done => {
                break ;
            },
        }
    }
    let out = m.output();
    proof {
        assert(runs_with(*overlaps, *sweep, *on_contact, s0, m, steps) && m.phase is Finished
            && out.position == m.position && out.projected_velocity == m.velocity);
    }
    out
}

} // verus!
