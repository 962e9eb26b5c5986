//! The move-and-slide engine.
//!
//! [`MoveAndSlide`] is a step machine for one timestep of kinematic
//! movement. Collision detection lives outside the library, so the engine
//! never queries geometry itself: [`MoveAndSlide::current_request`] says
//! which query the driver must run next (an overlap enumeration or a shape
//! sweep), and the driver feeds the query's result back through
//! [`MoveAndSlide::feed_initial_overlaps`], [`MoveAndSlide::feed_sweep`],
//! [`MoveAndSlide::apply_contact`] / [`MoveAndSlide::feed_overlaps`] and
//! [`MoveAndSlide::finish_contacts`]. Every step is a verified function of
//! the previous state and the fed result.
//!
//! One timestep runs: an initial depenetration pass, then up to
//! `move_and_slide_iterations` rounds of sweep, contact collection,
//! depenetration and velocity clipping, until time or movement runs out,
//! the shape is trapped, or the clipped velocity turns against the
//! original one (the anti-jitter rule).

use vstd::prelude::*;
use vstd::arithmetic::div_mod::{
    lemma_div_is_ordered, lemma_div_multiples_vanish, lemma_div_pos_is_pos,
};
use crate::fixed::{
    fx_add, fx_div, fx_mul, fx_ok, fx_sub, spec_fx_add, spec_fx_div, spec_fx_mul, spec_fx_sub,
    SCALE,
};
use crate::vec2::{
    spec_dot, spec_len, spec_v2_add, spec_v2_neg, spec_v2_normalize, spec_v2_scale, spec_v2_zero,
    unit_ok, v2_add, v2_dot, v2_neg, v2_normalize, v2_ok, v2_scale, v2_zero, Vec2,
};
use crate::depenetrate::{contacts_ok, depen_cfg_ok, spec_depenetrate, DepenetrationConfig};
use crate::clip::{normals_ok, spec_project_velocity, DOT_EPSILON};

verus! {

/// Sweeps shorter than this raw length are treated as "no movement left".
pub const MIN_DISTANCE: i64 = 100;

/// A contact reported by the geometry provider's overlap query: the
/// deepest contact point against one overlapping collider, its outward
/// separating normal (unit length) and its penetration depth.
#[derive(Clone, Copy, Debug, PartialEq, Eq, Structural)]
pub struct Contact {
    /// Identity of the overlapping collider.
    pub entity: u64,
    /// Deepest contact point, in world space.
    pub point: Vec2,
    /// Outward separating normal on the other collider, unit length.
    pub normal: Vec2,
    /// Penetration depth (negative when merely within the query margin).
    pub penetration: i64,
}

/// The contact's numeric fields are in range and its normal is near-unit.
pub open spec fn contact_ok(c: Contact) -> bool {
    v2_ok(c.point) && unit_ok(c.normal) && fx_ok(c.penetration)
}

/// Every contact in the list is in range.
pub open spec fn contact_list_ok(s: Seq<Contact>) -> bool {
    forall|i: int| 0 <= i < s.len() ==> contact_ok(#[trigger] s[i])
}

/// The nearest blocking hit reported by the geometry provider's sweep
/// query, before any skin-width adjustment.
#[derive(Clone, Copy, Debug, PartialEq, Eq, Structural)]
pub struct RawSweepHit {
    /// Identity of the collider that was hit.
    pub entity: u64,
    /// Raw time-of-impact distance along the sweep direction; zero when
    /// the shape already intersects the collider at the start.
    pub distance: i64,
    /// Closest point on the collider that was hit, in world space.
    pub point1: Vec2,
    /// Closest point on the swept shape, in world space.
    pub point2: Vec2,
    /// Outward surface normal on the hit collider at `point1`.
    pub normal1: Vec2,
    /// Outward surface normal on the swept shape at `point2`.
    pub normal2: Vec2,
}

/// The hit's numeric fields are in range, the distance is not negative,
/// and the surface normal is near-unit.
pub open spec fn raw_hit_ok(h: RawSweepHit) -> bool {
    &&& fx_ok(h.distance)
    &&& h.distance >= 0
    &&& v2_ok(h.point1)
    &&& v2_ok(h.point2)
    &&& unit_ok(h.normal1)
    &&& v2_ok(h.normal2)
}

/// A sweep hit after the skin-width pull-back: `distance` is how far it is
/// safe to move, `collision_distance` the raw time of impact.
#[derive(Clone, Copy, Debug, PartialEq, Eq, Structural)]
pub struct MoveHitData {
    /// Identity of the collider that was hit.
    pub entity: u64,
    /// The maximum distance that is safe to move in the swept direction so
    /// that at least the skin width of separation remains. Zero when the
    /// shape started off intersecting, or was already closer than the skin
    /// width.
    pub distance: i64,
    /// The raw distance to the collision, ignoring the skin width. Move by
    /// `distance`, not by this.
    pub collision_distance: i64,
    /// Closest point on the collider that was hit, in world space.
    pub point1: Vec2,
    /// Closest point on the swept shape, in world space.
    pub point2: Vec2,
    /// Outward surface normal on the hit collider at `point1`.
    pub normal1: Vec2,
    /// Outward surface normal on the swept shape at `point2`.
    pub normal2: Vec2,
}

/// The hit's numeric fields are in range.
pub open spec fn hit_ok(h: MoveHitData) -> bool {
    &&& fx_ok(h.distance)
    &&& h.distance >= 0
    &&& fx_ok(h.collision_distance)
    &&& h.collision_distance >= 0
    &&& v2_ok(h.point1)
    &&& v2_ok(h.point2)
    &&& v2_ok(h.normal1)
    &&& v2_ok(h.normal2)
}

impl MoveHitData {
    /// Whether the shape started off already intersecting another
    /// collider when it was swept (zero raw time of impact).
    pub fn intersects(self) -> (r: bool)
        ensures
            r == (self.collision_distance == 0),
    {
        self.collision_distance == 0
    }
}

/// Data handed to the caller for one discovered contact, so the caller can
/// decide how the contact is treated (see [`MoveAndSlide::apply_contact`]).
#[derive(Clone, Copy, Debug, PartialEq, Eq, Structural)]
pub struct MoveAndSlideHitData {
    /// Identity of the collider hit by the sweep of this iteration.
    pub entity: u64,
    /// The contact point, in world space.
    pub point: Vec2,
    /// The outward surface normal at `point`.
    pub normal: Vec2,
    /// The safe (skin-adjusted) sweep distance of this iteration.
    pub distance: i64,
    /// The raw time-of-impact distance of this iteration's sweep.
    pub collision_distance: i64,
    /// The shape's position at this point of the iteration.
    pub position: Vec2,
    /// The shape's velocity at this point of the iteration.
    pub velocity: Vec2,
}

impl MoveAndSlideHitData {
    /// Whether the shape started off already intersecting another
    /// collider when it was swept (zero raw time of impact).
    pub fn intersects(&self) -> (r: bool)
        ensures
            r == (self.collision_distance == 0),
    {
        self.collision_distance == 0
    }
}

/// The caller's verdict on one contact: whether to keep it as a clipping
/// plane (`keep == false` also stops collecting further contacts this
/// iteration), the normal to record (possibly adjusted), and the in-flight
/// position and velocity (possibly adjusted).
#[derive(Clone, Copy, Debug, PartialEq, Eq, Structural)]
pub struct ContactResponse {
    /// Keep this contact and go on collecting.
    pub keep: bool,
    /// The normal to record for clipping and depenetration.
    pub normal: Vec2,
    /// The (possibly adjusted) position.
    pub position: Vec2,
    /// The (possibly adjusted) velocity.
    pub velocity: Vec2,
}

/// The response's vectors are in range and its normal is near-unit.
pub open spec fn response_ok(r: ContactResponse) -> bool {
    unit_ok(r.normal) && v2_ok(r.position) && v2_ok(r.velocity)
}

/// Configuration for one move-and-slide call.
#[derive(Clone, Debug)]
pub struct MoveAndSlideConfig {
    /// Round budget for the sweep-collect-clip loop.
    pub move_and_slide_iterations: usize,
    /// Round budget for each depenetration pass.
    pub depenetration_iterations: usize,
    /// Error target for depenetration (scaled by the length unit).
    pub max_depenetration_error: i64,
    /// Contacts deeper than this (scaled by the length unit) are treated
    /// as degenerate and skipped by depenetration.
    pub penetration_rejection_threshold: i64,
    /// Minimal separation to keep from other colliders.
    pub skin_width: i64,
    /// Seed planes the velocity must always respect (e.g. a known ground
    /// plane); the per-iteration plane set starts from these.
    pub planes: Vec<Vec2>,
    /// Hard cap on the plane set; once reached, no more contacts are
    /// collected in the iteration.
    pub max_planes: usize,
}

/// The configuration's numeric fields are in range, the skin width is not
/// negative, and every seed plane is in range.
pub open spec fn config_ok(c: MoveAndSlideConfig) -> bool {
    &&& fx_ok(c.max_depenetration_error)
    &&& fx_ok(c.penetration_rejection_threshold)
    &&& fx_ok(c.skin_width)
    &&& c.skin_width >= 0
    &&& normals_ok(c.planes@)
}

impl Default for MoveAndSlideConfig {
    /// Defaults: 4 slide iterations, the default depenetration settings,
    /// a skin width five times the depenetration default, no seed planes,
    /// at most 20 planes.
    fn default() -> (c: Self)
        ensures
            c.move_and_slide_iterations == 4,
            c.depenetration_iterations == 16,
            c.max_depenetration_error == 100,
            c.penetration_rejection_threshold == 500_000,
            c.skin_width == 10_000,
            c.planes@ == Seq::<Vec2>::empty(),
            c.max_planes == 20,
            config_ok(c),
    {
        MoveAndSlideConfig {
            move_and_slide_iterations: 4,
            depenetration_iterations: 16,
            max_depenetration_error: 100,
            penetration_rejection_threshold: 500_000,
            skin_width: 10_000,
            planes: Vec::new(),
            max_planes: 20,
        }
    }
}

/// The depenetration part of a full move-and-slide configuration.
pub open spec fn spec_depen_of(c: MoveAndSlideConfig) -> DepenetrationConfig {
    DepenetrationConfig {
        depenetration_iterations: c.depenetration_iterations,
        max_depenetration_error: c.max_depenetration_error,
        penetration_rejection_threshold: c.penetration_rejection_threshold,
        skin_width: c.skin_width,
    }
}

impl DepenetrationConfig {
    /// The depenetration part of a full move-and-slide configuration.
    pub fn from(config: &MoveAndSlideConfig) -> (c: Self)
        ensures
            c == spec_depen_of(*config),
    {
        DepenetrationConfig {
            depenetration_iterations: config.depenetration_iterations,
            max_depenetration_error: config.max_depenetration_error,
            penetration_rejection_threshold: config.penetration_rejection_threshold,
            skin_width: config.skin_width,
        }
    }
}

/// Output of a completed move-and-slide: the pose to persist.
#[derive(Clone, Copy, Debug, PartialEq, Eq, Structural)]
pub struct MoveAndSlideOutput {
    /// The final position of the shape.
    pub position: Vec2,
    /// The final projected velocity: the actual movement rate after
    /// sliding, not the wished one.
    pub projected_velocity: Vec2,
}

/// Which step the engine is at.
#[derive(Clone, Copy, Debug, PartialEq, Eq, Structural)]
pub enum Phase {
    /// Waiting for the overlap query of the initial depenetration pass.
    InitialOverlaps,
    /// Waiting for the sweep along the current sweep vector.
    Sweeping,
    /// Collecting contacts at the post-sweep position.
    Collecting,
    /// The move is complete.
    Finished,
}

/// The query the driver must run next.
#[derive(Clone, Copy, Debug, PartialEq, Eq, Structural)]
pub enum Request {
    /// Enumerate all colliders within `margin` of the shape at `position`
    /// / `rotation`, and feed the contacts to `feed_initial_overlaps`.
    InitialOverlaps { position: Vec2, rotation: i64, margin: i64 },
    /// Sweep the shape from `position` / `rotation` along `movement`, and
    /// feed the nearest blocking hit (if any) to `feed_sweep`.
    Sweep { position: Vec2, rotation: i64, movement: Vec2 },
    /// Enumerate all colliders within `margin` of the shape at `position`
    /// / `rotation`, offer each contact through `apply_contact` (or feed
    /// them all through `feed_overlaps`), then call `finish_contacts`.
    ContactOverlaps { position: Vec2, rotation: i64, margin: i64 },
    /// Nothing left to do; read `output`.
    Done,
}

/// One move-and-slide in progress. The shape itself stays with the caller;
/// the engine only tracks the pose, the remaining velocity and time, and
/// the contact bookkeeping of the current iteration.
#[derive(Clone, Debug)]
pub struct MoveAndSlide {
    /// The configuration of this call (never changed by the engine).
    pub config: MoveAndSlideConfig,
    /// Units-per-meter scaling factor applied to depenetration thresholds.
    pub length_unit: i64,
    /// The shape's rotation (never changed by the engine; passed through
    /// to the geometry queries).
    pub rotation: i64,
    /// The shape's current position.
    pub position: Vec2,
    /// The current (projected) velocity.
    pub velocity: Vec2,
    /// The velocity the call started with, for the anti-jitter rule.
    pub original_velocity: Vec2,
    /// The remaining fraction of the timestep, in raw seconds.
    pub time_left: i64,
    /// Remaining sweep-collect-clip iterations.
    pub iterations_left: usize,
    /// Which step the engine is at.
    pub phase: Phase,
    /// While `Sweeping`: the sweep vector.
    pub sweep: Vec2,
    /// While `Sweeping`: the sweep's unit direction.
    pub dir: Vec2,
    /// While `Sweeping`: the sweep's raw length.
    pub sweep_distance: i64,
    /// While `Collecting`: the sweep hit that started this iteration.
    pub hit: MoveHitData,
    /// While `Collecting`: the accumulated clipping planes (seeded from
    /// the configuration's planes).
    pub planes: Vec<Vec2>,
    /// While `Collecting`: the penetrating contacts recorded for this
    /// iteration's depenetration pass.
    pub intersections: Vec<(Vec2, i64)>,
    /// While `Collecting`: whether contact collection has been cut short
    /// (plane cap reached, or the caller declined a contact).
    pub stopped: bool,
}

impl MoveAndSlide {
    /// Well-formedness: all tracked quantities are in range, and the data
    /// of the current phase is in range.
    pub open spec fn wf(self) -> bool {
        &&& config_ok(self.config)
        &&& fx_ok(self.length_unit)
        &&& fx_ok(self.rotation)
        &&& v2_ok(self.position)
        &&& v2_ok(self.velocity)
        &&& v2_ok(self.original_velocity)
        &&& fx_ok(self.time_left)
        &&& self.time_left >= 0
        &&& (self.phase is Sweeping ==> v2_ok(self.sweep) && v2_ok(self.dir) && fx_ok(
            self.sweep_distance,
        ) && self.sweep_distance > 0)
        &&& (self.phase is Collecting ==> hit_ok(self.hit) && normals_ok(self.planes@)
            && contacts_ok(self.intersections@))
    }
}

/// The sweep vector for the remaining velocity and time.
pub open spec fn spec_sweep_vec(s: MoveAndSlide) -> Vec2 {
    spec_v2_scale(s.velocity, s.time_left)
}

/// Starting the next iteration: the move completes when the iteration
/// budget is out or the remaining sweep is shorter than [`MIN_DISTANCE`];
/// otherwise one iteration is consumed and a sweep begins.
pub open spec fn spec_advance_rel(pre: MoveAndSlide, post: MoveAndSlide) -> bool {
    let sweep = spec_sweep_vec(pre);
    let len = spec_len(sweep);
    &&& post.config == pre.config
    &&& post.length_unit == pre.length_unit
    &&& post.rotation == pre.rotation
    &&& post.position == pre.position
    &&& post.velocity == pre.velocity
    &&& post.original_velocity == pre.original_velocity
    &&& post.time_left == pre.time_left
    &&& post.hit == pre.hit
    &&& post.planes == pre.planes
    &&& post.intersections == pre.intersections
    &&& post.stopped == pre.stopped
    &&& if pre.iterations_left == 0 || len < MIN_DISTANCE {
        &&& post.phase is Finished
        &&& post.iterations_left == pre.iterations_left
        &&& post.sweep == pre.sweep
        &&& post.dir == pre.dir
        &&& post.sweep_distance == pre.sweep_distance
    } else {
        &&& post.phase is Sweeping
        &&& post.iterations_left == pre.iterations_left - 1
        &&& post.sweep == sweep
        &&& post.dir == spec_v2_normalize(sweep)
        &&& post.sweep_distance == len
    }
}

/// Pulled-back safe distance: the hit distance reduced so that at least
/// `skin_width` of separation remains along the sweep direction `dir`,
/// floored at zero. The alignment of the direction with the surface's
/// inward normal is clamped into [`DOT_EPSILON`, `SCALE`]: the dot product
/// of two unit vectors never exceeds one, so the upper clamp only guards
/// fixed-point rounding, and the lower clamp keeps the divisor away from
/// zero at grazing angles.
pub open spec fn spec_pull_back(
    hit_distance: i64,
    hit_normal: Vec2,
    dir: Vec2,
    skin_width: i64,
) -> int {
    let d0 = spec_dot(dir, spec_v2_neg(hit_normal));
    let d = if d0 < DOT_EPSILON {
        DOT_EPSILON as int
    } else if d0 > SCALE {
        SCALE as int
    } else {
        d0
    };
    let sd = spec_fx_div(skin_width as int, d);
    let r = spec_fx_sub(hit_distance as int, sd);
    if r >= 0 {
        r
    } else {
        0
    }
}

/// The hit data `cast_move` builds from a raw sweep hit and its safe
/// distance.
pub open spec fn spec_move_hit(h: RawSweepHit, safe: i64) -> MoveHitData {
    MoveHitData {
        entity: h.entity,
        distance: safe,
        collision_distance: h.distance,
        point1: h.point1,
        point2: h.point2,
        normal1: h.normal1,
        normal2: h.normal2,
    }
}

/// What `cast_move` returns: nothing when the sweep hit nothing, otherwise
/// the raw hit with its pulled-back safe distance (zero for a zero-length
/// movement).
pub open spec fn spec_cast_move(
    movement: Vec2,
    skin_width: i64,
    hit: Option<RawSweepHit>,
) -> Option<MoveHitData> {
    match hit {
        Option::None => Option::None,
        Option::Some(h) => {
            let safe = if spec_len(movement) == 0 {
                0
            } else {
                spec_pull_back(h.distance, h.normal1, spec_v2_normalize(movement), skin_width)
            };
            Option::Some(spec_move_hit(h, safe as i64))
        },
    }
}

/// The state `s` with its position and velocity replaced.
pub open spec fn with_pos_vel(s: MoveAndSlide, p: Vec2, v: Vec2) -> MoveAndSlide {
    MoveAndSlide {
        config: s.config,
        length_unit: s.length_unit,
        rotation: s.rotation,
        position: p,
        velocity: v,
        original_velocity: s.original_velocity,
        time_left: s.time_left,
        iterations_left: s.iterations_left,
        phase: s.phase,
        sweep: s.sweep,
        dir: s.dir,
        sweep_distance: s.sweep_distance,
        hit: s.hit,
        planes: s.planes,
        intersections: s.intersections,
        stopped: s.stopped,
    }
}

/// The depenetration contacts derived from an overlap query: each
/// contact's penetration padded by the skin width.
pub open spec fn spec_initial_contacts(contacts: Seq<Contact>, skin: i64) -> Seq<(Vec2, i64)> {
    contacts.map_values(
        |c: Contact| (c.normal, spec_fx_add(c.penetration as int, skin as int) as i64),
    )
}

/// The initial depenetration pass: the corrective displacement for the fed
/// contacts is added to the position, then the first iteration starts.
pub open spec fn spec_feed_initial_rel(
    pre: MoveAndSlide,
    contacts: Seq<Contact>,
    post: MoveAndSlide,
) -> bool {
    let offset = spec_depenetrate(
        spec_depen_of(pre.config),
        pre.length_unit,
        spec_initial_contacts(contacts, pre.config.skin_width),
    );
    spec_advance_rel(with_pos_vel(pre, spec_v2_add(pre.position, offset), pre.velocity), post)
}

/// Consuming a sweep result. No hit: the full sweep is applied and the
/// move completes. A hit with zero time of impact: the shape is trapped,
/// the velocity becomes exactly zero and the move completes. Otherwise the
/// shape advances by the safe distance, the remaining time shrinks by the
/// consumed fraction, and contact collection begins with the seed planes.
pub open spec fn spec_feed_sweep_rel(
    pre: MoveAndSlide,
    hit: Option<RawSweepHit>,
    post: MoveAndSlide,
) -> bool {
    &&& post.config == pre.config
    &&& post.length_unit == pre.length_unit
    &&& post.rotation == pre.rotation
    &&& post.original_velocity == pre.original_velocity
    &&& post.iterations_left == pre.iterations_left
    &&& post.sweep == pre.sweep
    &&& post.dir == pre.dir
    &&& post.sweep_distance == pre.sweep_distance
    &&& match hit {
        Option::None => {
            &&& post.position == spec_v2_add(pre.position, pre.sweep)
            &&& post.velocity == pre.velocity
            &&& post.time_left == pre.time_left
            &&& post.phase is Finished
            &&& post.hit == pre.hit
            &&& post.planes == pre.planes
            &&& post.intersections == pre.intersections
            &&& post.stopped == pre.stopped
        },
        Option::Some(h) => {
            if h.distance == 0 {
                &&& post.position == pre.position
                &&& post.velocity == spec_v2_zero()
                &&& post.time_left == pre.time_left
                &&& post.phase is Finished
                &&& post.hit == pre.hit
                &&& post.planes == pre.planes
                &&& post.intersections == pre.intersections
                &&& post.stopped == pre.stopped
            } else {
                let safe = spec_pull_back(
                    h.distance,
                    h.normal1,
                    pre.dir,
                    pre.config.skin_width,
                ) as i64;
                let frac = spec_fx_div(safe as int, pre.sweep_distance as int) as i64;
                &&& post.position == spec_v2_add(pre.position, spec_v2_scale(pre.dir, safe))
                &&& post.velocity == pre.velocity
                &&& post.time_left == spec_fx_sub(
                    pre.time_left as int,
                    spec_fx_mul(pre.time_left as int, frac as int),
                ) as i64
                &&& post.phase is Collecting
                &&& post.hit == spec_move_hit(h, safe)
                &&& post.planes@ == pre.config.planes@
                &&& post.intersections@ == Seq::<(Vec2, i64)>::empty()
                &&& post.stopped == false
            }
        },
    }
}

/// Offering one contact to the engine, with the caller's response. When
/// collection has stopped or the plane cap is reached nothing changes
/// (except that collection is now marked stopped) and the answer is to
/// stop. Otherwise the response's position and velocity are adopted;
/// a declined contact stops collection, a kept one appends its normal to
/// the plane set and, when penetrating, to the depenetration list.
pub open spec fn spec_apply_contact_rel(
    pre: MoveAndSlide,
    contact: Contact,
    response: ContactResponse,
    post: MoveAndSlide,
    cont: bool,
) -> bool {
    &&& post.config == pre.config
    &&& post.length_unit == pre.length_unit
    &&& post.rotation == pre.rotation
    &&& post.original_velocity == pre.original_velocity
    &&& post.time_left == pre.time_left
    &&& post.iterations_left == pre.iterations_left
    &&& post.phase == pre.phase
    &&& post.sweep == pre.sweep
    &&& post.dir == pre.dir
    &&& post.sweep_distance == pre.sweep_distance
    &&& post.hit == pre.hit
    &&& if pre.stopped || pre.planes@.len() >= pre.config.max_planes {
        &&& cont == false
        &&& post.position == pre.position
        &&& post.velocity == pre.velocity
        &&& post.planes == pre.planes
        &&& post.intersections == pre.intersections
        &&& post.stopped == true
    } else if !response.keep {
        &&& cont == false
        &&& post.position == response.position
        &&& post.velocity == response.velocity
        &&& post.planes == pre.planes
        &&& post.intersections == pre.intersections
        &&& post.stopped == true
    } else {
        let pen = spec_fx_add(contact.penetration as int, pre.config.skin_width as int);
        &&& cont == true
        &&& post.position == response.position
        &&& post.velocity == response.velocity
        &&& post.planes@ == pre.planes@.push(response.normal)
        &&& post.intersections@ == if pen > 0 {
            pre.intersections@.push((response.normal, pen as i64))
        } else {
            pre.intersections@
        }
        &&& post.stopped == false
    }
}

/// Folding a whole contact list into the plane set and depenetration list,
/// keeping every contact unchanged (the default, callback-free treatment):
/// stops at the plane cap.
pub open spec fn spec_collect(
    planes: Seq<Vec2>,
    inters: Seq<(Vec2, i64)>,
    stopped: bool,
    contacts: Seq<Contact>,
    skin: i64,
    max_planes: int,
) -> (Seq<Vec2>, Seq<(Vec2, i64)>, bool)
    decreases contacts.len(),
{
    if stopped || contacts.len() == 0 {
        (planes, inters, stopped)
    } else if planes.len() >= max_planes {
        (planes, inters, true)
    } else {
        let c = contacts[0];
        let pen = spec_fx_add(c.penetration as int, skin as int);
        spec_collect(
            planes.push(c.normal),
            if pen > 0 {
                inters.push((c.normal, pen as i64))
            } else {
                inters
            },
            false,
            contacts.drop_first(),
            skin,
            max_planes,
        )
    }
}

/// Ending an iteration: depenetrate against the recorded contacts, clip
/// the velocity against the plane set, and either stop dead (anti-jitter:
/// the clipped velocity points against the original one) or start the next
/// iteration.
pub open spec fn spec_finish_rel(pre: MoveAndSlide, post: MoveAndSlide) -> bool {
    let offset = spec_depenetrate(spec_depen_of(pre.config), pre.length_unit, pre.intersections@);
    let p2 = spec_v2_add(pre.position, offset);
    let v2 = spec_project_velocity(pre.velocity, pre.planes@);
    if spec_dot(v2, pre.original_velocity) <= -DOT_EPSILON {
        &&& post.config == pre.config
        &&& post.length_unit == pre.length_unit
        &&& post.rotation == pre.rotation
        &&& post.original_velocity == pre.original_velocity
        &&& post.time_left == pre.time_left
        &&& post.iterations_left == pre.iterations_left
        &&& post.sweep == pre.sweep
        &&& post.dir == pre.dir
        &&& post.sweep_distance == pre.sweep_distance
        &&& post.hit == pre.hit
        &&& post.planes == pre.planes
        &&& post.intersections == pre.intersections
        &&& post.stopped == pre.stopped
        &&& post.position == p2
        &&& post.velocity == spec_v2_zero()
        &&& post.phase is Finished
    } else {
        spec_advance_rel(with_pos_vel(pre, p2, v2), post)
    }
}

/// The query the driver must run for the current phase.
pub open spec fn spec_request(s: MoveAndSlide) -> Request {
    match s.phase {
        Phase::InitialOverlaps => Request::InitialOverlaps {
            position: s.position,
            rotation: s.rotation,
            margin: s.config.skin_width,
        },
        Phase::Sweeping => Request::Sweep {
            position: s.position,
            rotation: s.rotation,
            movement: s.sweep,
        },
        Phase::Collecting => Request::ContactOverlaps {
            position: s.position,
            rotation: s.rotation,
            margin: spec_fx_add(s.config.skin_width as int, s.config.skin_width as int) as i64,
        },
        Phase::Finished => Request::Done,
    }
}

/// The context handed to the caller's per-contact decision.
pub open spec fn spec_contact_context(s: MoveAndSlide, c: Contact) -> MoveAndSlideHitData {
    MoveAndSlideHitData {
        entity: s.hit.entity,
        point: c.point,
        normal: c.normal,
        distance: s.hit.distance,
        collision_distance: s.hit.collision_distance,
        position: s.position,
        velocity: s.velocity,
    }
}

/// The pulled-back distance is between zero and the hit distance.
pub proof fn lemma_pull_back_bounds(hit_distance: i64, hit_normal: Vec2, dir: Vec2, skin_width: i64)
    requires
        hit_distance >= 0,
        fx_ok(hit_distance),
        skin_width >= 0,
        fx_ok(skin_width),
    ensures
        0 <= spec_pull_back(hit_distance, hit_normal, dir, skin_width) <= hit_distance,
{
    let d0 = spec_dot(dir, spec_v2_neg(hit_normal));
    let d = if d0 < DOT_EPSILON {
        DOT_EPSILON as int
    } else if d0 > SCALE {
        SCALE as int
    } else {
        d0
    };
    let num = skin_width * (SCALE as int);
    assert(num >= 0) by (nonlinear_arith)
        requires
            skin_width >= 0,
            num == skin_width * 1_000_000,
    ;
    lemma_div_pos_is_pos(num, d);
}

/// The consumed fraction of a sweep is between zero and one.
pub proof fn lemma_frac_bounds(safe: i64, dist: i64)
    requires
        0 <= safe <= dist,
        0 < dist,
    ensures
        0 <= spec_fx_div(safe as int, dist as int) <= SCALE,
{
    let num = (safe as int) * (SCALE as int);
    let bound = (dist as int) * (SCALE as int);
    assert(0 <= num && num <= bound) by (nonlinear_arith)
        requires
            0 <= safe <= dist,
            num == safe * 1_000_000,
            bound == dist * 1_000_000,
    ;
    lemma_div_pos_is_pos(num, dist as int);
    lemma_div_is_ordered(num, bound, dist as int);
    lemma_div_multiples_vanish(SCALE as int, dist as int);
    assert(bound == (dist as int) * (SCALE as int));
}

/// Consuming a fraction of the remaining time leaves it within [0, time].
pub proof fn lemma_time_step(time: i64, frac: i64)
    requires
        0 <= time,
        fx_ok(time),
        0 <= frac <= SCALE,
    ensures
        0 <= spec_fx_mul(time as int, frac as int) <= time,
        0 <= spec_fx_sub(time as int, spec_fx_mul(time as int, frac as int)) <= time,
{
    let p = (time as int) * (frac as int);
    assert(0 <= p && p <= time * 1_000_000) by (nonlinear_arith)
        requires
            0 <= time,
            0 <= frac <= 1_000_000i64,
            p == time * frac,
    ;
    lemma_div_pos_is_pos(p, SCALE as int);
    lemma_div_is_ordered(p, (time as int) * (SCALE as int), SCALE as int);
    lemma_div_multiples_vanish(time as int, SCALE as int);
}

/// Reduces a hit distance so that at least `skin_width` of separation
/// remains along the sweep direction, floored at zero.
fn pull_back(hit_distance: i64, hit_normal: Vec2, dir: Vec2, skin_width: i64) -> (r: i64)
    requires
        fx_ok(hit_distance),
        hit_distance >= 0,
        v2_ok(hit_normal),
        v2_ok(dir),
        fx_ok(skin_width),
        skin_width >= 0,
    ensures
        r == spec_pull_back(hit_distance, hit_normal, dir, skin_width),
        0 <= r <= hit_distance,
        r == 0 || hit_distance - r >= skin_width,
{
    proof {
        lemma_pull_back_bounds(hit_distance, hit_normal, dir, skin_width);
        crate::laws::law_skin_margin(hit_distance, hit_normal, dir, skin_width);
    }
    let d0: i64 = v2_dot(dir, v2_neg(hit_normal));
    let d: i64 = if d0 < DOT_EPSILON {
        DOT_EPSILON
    } else if d0 > SCALE {
        SCALE
    } else {
        d0
    };
    let sd: i64 = fx_div(skin_width, d);
    let r0: i64 = fx_sub(hit_distance, sd);
    if r0 >= 0 {
        r0
    } else {
        0
    }
}

impl MoveAndSlide {
/// Turns a raw sweep result into movement data: the safe distance is the
/// raw time of impact pulled back by the skin width along the movement
/// direction (zero for a zero-length movement), and the raw time of impact
/// is kept as `collision_distance`.
pub fn cast_move(movement: Vec2, skin_width: i64, hit: Option<RawSweepHit>) -> (r: Option<
    MoveHitData,
>)
    requires
        v2_ok(movement),
        fx_ok(skin_width),
        skin_width >= 0,
        match hit {
            Option::Some(h) => raw_hit_ok(h),
            Option::None => true,
        },
    ensures
        r == spec_cast_move(movement, skin_width, hit),
        hit is None ==> r is None,
        hit matches Some(h) ==> r matches Some(m) && 0 <= m.distance <= h.distance
            && m.collision_distance == h.distance && (m.distance == 0 || m.collision_distance
            - m.distance >= skin_width),
{
    match hit {
        None => None,
        Some(h) => {
            let safe: i64 = match v2_normalize(movement) {
                None => 0,
                Some(dl) => pull_back(h.distance, h.normal1, dl.0, skin_width),
            };
            Some(
                MoveHitData {
                    entity: h.entity,
                    distance: safe,
                    collision_distance: h.distance,
                    point1: h.point1,
                    point2: h.point2,
                    normal1: h.normal1,
                    normal2: h.normal2,
                },
            )
        },
    }
}

/// Pads each overlap contact's penetration by the configured skin width
/// and runs the depenetration solver on the result: the one-call form of
/// an overlap query followed by `depenetrate`.
pub fn depenetrate_all(
    config: &DepenetrationConfig,
    length_unit: i64,
    contacts: &Vec<Contact>,
) -> (r: Vec2)
    requires
        depen_cfg_ok(*config),
        fx_ok(length_unit),
        contact_list_ok(contacts@),
    ensures
        r == spec_depenetrate(
            *config,
            length_unit,
            spec_initial_contacts(contacts@, config.skin_width),
        ),
        v2_ok(r),
{
    let skin: i64 = config.skin_width;
    let mut inters: Vec<(Vec2, i64)> = Vec::new();
    let mut i: usize = 0;
    while i < contacts.len()
        invariant
            i <= contacts.len(),
            contact_list_ok(contacts@),
            fx_ok(skin),
            inters@.len() == i,
            forall|j: int|
                0 <= j < i ==> #[trigger] inters@[j] == (
                    contacts@[j].normal,
                    spec_fx_add(contacts@[j].penetration as int, skin as int) as i64,
                ),
        decreases contacts.len() - i,
    {
        let c: Contact = contacts[i];
        inters.push((c.normal, fx_add(c.penetration, skin)));
        i = i + 1;
    }
    proof {
        assert(inters@ =~= spec_initial_contacts(contacts@, skin));
        assert(contacts_ok(inters@));
    }
    MoveAndSlide::depenetrate(config, length_unit, &inters)
}
}

impl MoveAndSlide {
    /// Starts one move-and-slide: the shape stands at `position` with
    /// rotation `rotation`, wants to move with `velocity` for `delta_time`
    /// raw seconds. The first request is the overlap query for the initial
    /// depenetration pass.
    pub fn begin(
        config: MoveAndSlideConfig,
        length_unit: i64,
        position: Vec2,
        rotation: i64,
        velocity: Vec2,
        delta_time: i64,
    ) -> (s: MoveAndSlide)
        requires
            config_ok(config),
            fx_ok(length_unit),
            fx_ok(rotation),
            v2_ok(position),
            v2_ok(velocity),
            fx_ok(delta_time),
            delta_time >= 0,
        ensures
            s.wf(),
            s.config == config,
            s.length_unit == length_unit,
            s.rotation == rotation,
            s.position == position,
            s.velocity == velocity,
            s.original_velocity == velocity,
            s.time_left == delta_time,
            s.iterations_left == config.move_and_slide_iterations,
            s.phase is InitialOverlaps,
    {
        let iters: usize = config.move_and_slide_iterations;
        MoveAndSlide {
            config,
            length_unit,
            rotation,
            position,
            velocity,
            original_velocity: velocity,
            time_left: delta_time,
            iterations_left: iters,
            phase: Phase::InitialOverlaps,
            sweep: v2_zero(),
            dir: v2_zero(),
            sweep_distance: 0,
            hit: MoveHitData {
                entity: 0,
                distance: 0,
                collision_distance: 0,
                point1: v2_zero(),
                point2: v2_zero(),
                normal1: v2_zero(),
                normal2: v2_zero(),
            },
            planes: Vec::new(),
            intersections: Vec::new(),
            stopped: false,
        }
    }

    /// The query the driver must run next.
    pub fn current_request(&self) -> (r: Request)
        ensures
            r == spec_request(*self),
    {
        match self.phase {
            Phase::InitialOverlaps => Request::InitialOverlaps {
                position: self.position,
                rotation: self.rotation,
                margin: self.config.skin_width,
            },
            Phase::Sweeping => Request::Sweep {
                position: self.position,
                rotation: self.rotation,
                movement: self.sweep,
            },
            Phase::Collecting => Request::ContactOverlaps {
                position: self.position,
                rotation: self.rotation,
                margin: fx_add(self.config.skin_width, self.config.skin_width),
            },
            Phase::Finished => Request::Done,
        }
    }

    /// Whether the move is complete.
    pub fn is_finished(&self) -> (r: bool)
        ensures
            r == (self.phase is Finished),
    {
        match self.phase {
            Phase::Finished => true,
            _ => false,
        }
    }

    /// The pose to persist: current position and projected velocity.
    pub fn output(&self) -> (o: MoveAndSlideOutput)
        ensures
            o.position == self.position,
            o.projected_velocity == self.velocity,
    {
        MoveAndSlideOutput { position: self.position, projected_velocity: self.velocity }
    }

    /// Starts the next iteration, or finishes when the iteration budget is
    /// out or the remaining sweep is negligible.
    fn advance(&mut self)
        requires
            old(self).wf(),
        ensures
            final(self).wf(),
            spec_advance_rel(*old(self), *final(self)),
    {
        if self.iterations_left == 0 {
            self.phase = Phase::Finished;
            return ;
        }
        let sweep: Vec2 = v2_scale(self.velocity, self.time_left);
        match v2_normalize(sweep) {
            None => {
                self.phase = Phase::Finished;
            },
            Some(dl) => {
                let d: Vec2 = dl.0;
                let len: i64 = dl.1;
                if len < MIN_DISTANCE {
                    self.phase = Phase::Finished;
                } else {
                    self.iterations_left = self.iterations_left - 1;
                    self.sweep = sweep;
                    self.dir = d;
                    self.sweep_distance = len;
                    self.phase = Phase::Sweeping;
                }
            },
        }
    }

    /// Feeds the overlap contacts for the initial depenetration pass: the
    /// solver's corrective displacement is applied to the position, then
    /// the first iteration starts.
    pub fn feed_initial_overlaps(&mut self, contacts: &Vec<Contact>)
        requires
            old(self).wf(),
            old(self).phase is InitialOverlaps,
            contact_list_ok(contacts@),
        ensures
            final(self).wf(),
            spec_feed_initial_rel(*old(self), contacts@, *final(self)),
    {
        let dcfg: DepenetrationConfig = DepenetrationConfig::from(&self.config);
        let offset: Vec2 = MoveAndSlide::depenetrate_all(&dcfg, self.length_unit, contacts);
        self.position = v2_add(self.position, offset);
        let ghost mid = *self;
        self.advance();
        proof {
            assert(mid == with_pos_vel(
                *old(self),
                spec_v2_add(old(self).position, offset),
                old(self).velocity,
            ));
        }
    }

    /// Feeds the result of the requested sweep. No hit: the full sweep is
    /// applied and the move completes. A hit with zero raw time of impact:
    /// the shape is trapped, so the velocity becomes exactly zero and the
    /// move completes. Otherwise the shape advances by the safe distance
    /// and contact collection begins.
    pub fn feed_sweep(&mut self, hit: Option<RawSweepHit>)
        requires
            old(self).wf(),
            old(self).phase is Sweeping,
            match hit {
                Option::Some(h) => raw_hit_ok(h) && h.distance <= old(self).sweep_distance,
                Option::None => true,
            },
        ensures
            final(self).wf(),
            spec_feed_sweep_rel(*old(self), hit, *final(self)),
            (hit matches Some(h) && h.distance == 0) ==> final(self).velocity == spec_v2_zero()
                && final(self).phase is Finished,
    {
        match hit {
            None => {
                self.position = v2_add(self.position, self.sweep);
                self.phase = Phase::Finished;
            },
            Some(h) => {
                if h.distance == 0 {
                    self.velocity = v2_zero();
                    self.phase = Phase::Finished;
                } else {
                    let safe: i64 = pull_back(h.distance, h.normal1, self.dir, self.config.skin_width);
                    let frac: i64 = fx_div(safe, self.sweep_distance);
                    proof {
                        lemma_frac_bounds(safe, self.sweep_distance);
                        lemma_time_step(self.time_left, frac);
                    }
                    let consumed: i64 = fx_mul(self.time_left, frac);
                    self.time_left = fx_sub(self.time_left, consumed);
                    self.position = v2_add(self.position, v2_scale(self.dir, safe));
                    let mut planes: Vec<Vec2> = Vec::new();
                    let mut i: usize = 0;
                    while i < self.config.planes.len()
                        invariant
                            i <= self.config.planes.len(),
                            planes@ == self.config.planes@.take(i as int),
                        decreases self.config.planes.len() - i,
                    {
                        planes.push(self.config.planes[i]);
                        proof {
                            assert(planes@ =~= self.config.planes@.take(i + 1 as int));
                        }
                        i = i + 1;
                    }
                    proof {
                        assert(planes@ =~= self.config.planes@);
                    }
                    self.hit = MoveHitData {
                        entity: h.entity,
                        distance: safe,
                        collision_distance: h.distance,
                        point1: h.point1,
                        point2: h.point2,
                        normal1: h.normal1,
                        normal2: h.normal2,
                    };
                    self.planes = planes;
                    self.intersections = Vec::new();
                    self.stopped = false;
                    self.phase = Phase::Collecting;
                }
            },
        }
    }

    /// The data for the caller's decision about one contact: the entity of
    /// this iteration's sweep hit, the contact's point and normal, the
    /// iteration's distances, and the in-flight position and velocity.
    pub fn contact_context(&self, contact: &Contact) -> (h: MoveAndSlideHitData)
        requires
            self.phase is Collecting,
        ensures
            h == spec_contact_context(*self, *contact),
    {
        MoveAndSlideHitData {
            entity: self.hit.entity,
            point: contact.point,
            normal: contact.normal,
            distance: self.hit.distance,
            collision_distance: self.hit.collision_distance,
            position: self.position,
            velocity: self.velocity,
        }
    }

    /// Offers one discovered contact together with the caller's response
    /// (built from [`Self::contact_context`]). Returns whether the caller
    /// should go on offering contacts; once it returns false, further
    /// offers change nothing.
    pub fn apply_contact(&mut self, contact: &Contact, response: &ContactResponse) -> (cont: bool)
        requires
            old(self).wf(),
            old(self).phase is Collecting,
            contact_ok(*contact),
            response_ok(*response),
        ensures
            final(self).wf(),
            spec_apply_contact_rel(*old(self), *contact, *response, *final(self), cont),
    {
        if self.stopped || self.planes.len() >= self.config.max_planes {
            self.stopped = true;
            return false;
        }
        self.position = response.position;
        self.velocity = response.velocity;
        if !response.keep {
            self.stopped = true;
            return false;
        }
        self.planes.push(response.normal);
        let pen: i64 = fx_add(contact.penetration, self.config.skin_width);
        if pen > 0 {
            self.intersections.push((response.normal, pen));
        }
        true
    }

    /// Feeds a whole contact list with the default treatment: every
    /// contact is kept unchanged and nothing is adjusted, up to the plane
    /// cap. Equivalent to offering each contact with an accepting
    /// response.
    pub fn feed_overlaps(&mut self, contacts: &Vec<Contact>)
        requires
            old(self).wf(),
            old(self).phase is Collecting,
            contact_list_ok(contacts@),
        ensures
            final(self).wf(),
            final(self).position == old(self).position,
            final(self).velocity == old(self).velocity,
            final(self).phase == old(self).phase,
            final(self).config == old(self).config,
            final(self).length_unit == old(self).length_unit,
            final(self).rotation == old(self).rotation,
            final(self).original_velocity == old(self).original_velocity,
            final(self).time_left == old(self).time_left,
            final(self).iterations_left == old(self).iterations_left,
            final(self).sweep == old(self).sweep,
            final(self).dir == old(self).dir,
            final(self).sweep_distance == old(self).sweep_distance,
            final(self).hit == old(self).hit,
            (final(self).planes@, final(self).intersections@, final(self).stopped) == spec_collect(
                old(self).planes@,
                old(self).intersections@,
                old(self).stopped,
                contacts@,
                old(self).config.skin_width,
                old(self).config.max_planes as int,
            ),
    {
        let mut i: usize = 0;
        let mut go: bool = true;
        proof {
            assert(contacts@.skip(0) =~= contacts@);
        }
        while go && i < contacts.len()
            invariant
                i <= contacts.len(),
                contact_list_ok(contacts@),
                self.wf(),
                self.phase is Collecting,
                self.position == old(self).position,
                self.velocity == old(self).velocity,
                self.config == old(self).config,
                self.length_unit == old(self).length_unit,
                self.rotation == old(self).rotation,
                self.original_velocity == old(self).original_velocity,
                self.time_left == old(self).time_left,
                self.iterations_left == old(self).iterations_left,
                self.sweep == old(self).sweep,
                self.dir == old(self).dir,
                self.sweep_distance == old(self).sweep_distance,
                self.hit == old(self).hit,
                !go ==> self.stopped,
                spec_collect(
                    self.planes@,
                    self.intersections@,
                    self.stopped,
                    contacts@.skip(i as int),
                    old(self).config.skin_width,
                    old(self).config.max_planes as int,
                ) == spec_collect(
                    old(self).planes@,
                    old(self).intersections@,
                    old(self).stopped,
                    contacts@,
                    old(self).config.skin_width,
                    old(self).config.max_planes as int,
                ),
            decreases contacts.len() - i,
        {
            let c: Contact = contacts[i];
            let response: ContactResponse = ContactResponse {
                keep: true,
                normal: c.normal,
                position: self.position,
                velocity: self.velocity,
            };
            let ghost pre = *self;
            let cont: bool = self.apply_contact(&c, &response);
            proof {
                assert(contacts@.skip(i as int)[0] == c);
                assert(contacts@.skip(i as int).drop_first() =~= contacts@.skip(i + 1 as int));
            }
            go = cont;
            i = i + 1;
        }
        proof {
            if go {
                assert(contacts@.skip(i as int) =~= Seq::<Contact>::empty());
            }
        }
    }

    /// Ends the iteration: runs the depenetration solver on the recorded
    /// contacts, clips the velocity against the plane set, applies the
    /// anti-jitter rule (a clipped velocity pointing against the original
    /// one stops the move dead), and otherwise starts the next iteration.
    pub fn finish_contacts(&mut self)
        requires
            old(self).wf(),
            old(self).phase is Collecting,
        ensures
            final(self).wf(),
            spec_finish_rel(*old(self), *final(self)),
            spec_dot(
                spec_project_velocity(old(self).velocity, old(self).planes@),
                old(self).original_velocity,
            ) <= -DOT_EPSILON ==> final(self).velocity == spec_v2_zero() && final(self).phase
                is Finished,
    {
        let dcfg: DepenetrationConfig = DepenetrationConfig::from(&self.config);
        let offset: Vec2 = MoveAndSlide::depenetrate(&dcfg, self.length_unit, &self.intersections);
        self.position = v2_add(self.position, offset);
        let v: Vec2 = MoveAndSlide::project_velocity(self.velocity, &self.planes);
        self.velocity = v;
        let d: i64 = v2_dot(self.velocity, self.original_velocity);
        if d <= -DOT_EPSILON {
            self.velocity = v2_zero();
            self.phase = Phase::Finished;
        } else {
            let ghost mid = *self;
            self.advance();
            proof {
                assert(mid == with_pos_vel(
                    *old(self),
                    spec_v2_add(old(self).position, offset),
                    spec_project_velocity(old(self).velocity, old(self).planes@),
                ));
            }
        }
    }
}

} // verus!
