//! Tests driving the move-and-slide engine through whole timesteps.

use move_and_slide::engine::{
    Contact, ContactResponse, MoveAndSlide, MoveAndSlideConfig, Phase, RawSweepHit, Request,
};
use move_and_slide::fixed::SCALE;
use move_and_slide::vec2::Vec2;

const S: i64 = SCALE;

fn raw_hit(distance: i64, normal1: Vec2) -> RawSweepHit {
    RawSweepHit {
        entity: 7,
        distance,
        point1: Vec2 { x: 0, y: 0 },
        point2: Vec2 { x: 0, y: 0 },
        normal1,
        normal2: Vec2 { x: -normal1.x, y: -normal1.y },
    }
}

fn contact(normal: Vec2, penetration: i64) -> Contact {
    Contact { entity: 3, point: Vec2 { x: 0, y: 0 }, normal, penetration }
}

#[test]
fn no_obstacle_moves_full_distance() {
    // Empty scene: the move ends at position + velocity * delta_time with
    // the velocity unchanged.
    let pos = Vec2 { x: 2 * S, y: 3 * S };
    let vel = Vec2 { x: S, y: 2 * S };
    let mut m = MoveAndSlide::begin(MoveAndSlideConfig::default(), S, pos, 0, vel, S);
    assert_eq!(
        m.current_request(),
        Request::InitialOverlaps { position: pos, rotation: 0, margin: 10_000 },
    );
    m.feed_initial_overlaps(&vec![]);
    assert_eq!(
        m.current_request(),
        Request::Sweep { position: pos, rotation: 0, movement: vel },
    );
    m.feed_sweep(None);
    assert!(m.is_finished());
    let out = m.output();
    assert_eq!(out.position, Vec2 { x: 3 * S, y: 5 * S });
    assert_eq!(out.projected_velocity, vel);
}

#[test]
fn zero_velocity_is_idempotent() {
    // Zero velocity: the move finishes right after the (empty) initial
    // depenetration pass, with the position unchanged.
    let pos = Vec2 { x: 5 * S, y: -S };
    let zero = Vec2 { x: 0, y: 0 };
    let mut m = MoveAndSlide::begin(MoveAndSlideConfig::default(), S, pos, 0, zero, S);
    m.feed_initial_overlaps(&vec![]);
    assert!(m.is_finished());
    assert_eq!(m.output().position, pos);
    assert_eq!(m.output().projected_velocity, zero);
}

#[test]
fn initial_depenetration_pushes_out() {
    // A penetrating contact in the initial pass moves the shape out along
    // the contact normal by penetration + skin width.
    let zero = Vec2 { x: 0, y: 0 };
    let mut m = MoveAndSlide::begin(MoveAndSlideConfig::default(), S, zero, 0, zero, S);
    m.feed_initial_overlaps(&vec![contact(Vec2 { x: 0, y: S }, 200_000)]);
    assert!(m.is_finished());
    assert_eq!(m.output().position, Vec2 { x: 0, y: 210_000 });
}

#[test]
fn trapped_shape_stops_with_zero_velocity() {
    // A sweep with zero raw time of impact means the shape starts off
    // fully overlapping: the velocity becomes exactly zero immediately.
    let pos = Vec2 { x: 0, y: 0 };
    let vel = Vec2 { x: S, y: 0 };
    let mut m = MoveAndSlide::begin(MoveAndSlideConfig::default(), S, pos, 0, vel, S);
    m.feed_initial_overlaps(&vec![]);
    m.feed_sweep(Some(raw_hit(0, Vec2 { x: -S, y: 0 })));
    assert!(m.is_finished());
    assert_eq!(m.output().projected_velocity, Vec2 { x: 0, y: 0 });
    assert_eq!(m.output().position, pos);
}

#[test]
fn blocking_sweep_keeps_skin_margin() {
    // Moving straight at a wall 5 units away: the shape advances by the
    // raw impact distance minus the skin width, never the full distance.
    let vel = Vec2 { x: 10 * S, y: 0 };
    let mut m = MoveAndSlide::begin(
        MoveAndSlideConfig::default(),
        S,
        Vec2 { x: 0, y: 0 },
        0,
        vel,
        S,
    );
    m.feed_initial_overlaps(&vec![]);
    m.feed_sweep(Some(raw_hit(5 * S, Vec2 { x: -S, y: 0 })));
    assert!(matches!(m.phase, Phase::Collecting));
    // Contacts are collected with a wider margin: twice the skin width.
    assert_eq!(
        m.current_request(),
        Request::ContactOverlaps {
            position: Vec2 { x: 4_990_000, y: 0 },
            rotation: 0,
            margin: 20_000,
        },
    );
    // safe distance = 5.0 - skin (0.01) = 4.99
    assert_eq!(m.position, Vec2 { x: 4_990_000, y: 0 });
    assert_eq!(m.hit.distance, 4_990_000);
    assert_eq!(m.hit.collision_distance, 5 * S);
    assert!(m.hit.collision_distance - m.hit.distance >= m.config.skin_width);
    // The contact stops further movement: sliding into the wall head-on
    // projects the velocity to zero and the move ends.
    m.feed_overlaps(&vec![contact(Vec2 { x: -S, y: 0 }, -10_000)]);
    m.finish_contacts();
    assert!(m.is_finished());
    assert_eq!(m.output().projected_velocity, Vec2 { x: 0, y: 0 });
}

#[test]
fn diagonal_slide_along_ground() {
    // Falling diagonally onto flat ground: the move stops at the ground
    // (keeping the skin margin plus the depenetration correction) and
    // slides the rest of the timestep horizontally.
    let vel = Vec2 { x: 3 * S, y: -4 * S };
    let mut m = MoveAndSlide::begin(
        MoveAndSlideConfig::default(),
        S,
        Vec2 { x: 0, y: 0 },
        0,
        vel,
        S,
    );
    m.feed_initial_overlaps(&vec![]);
    // |sweep| = 5; ground hit halfway, at raw distance 2.5.
    m.feed_sweep(Some(raw_hit(2_500_000, Vec2 { x: 0, y: S })));
    // dir = (0.6, -0.8); alignment with the ground is 0.8, so the pull-back
    // is skin/0.8 = 0.0125 and the safe distance 2.4875.
    assert_eq!(m.position, Vec2 { x: 1_492_500, y: -1_990_000 });
    // A grazing ground contact: not penetrating, but within the skin, so
    // the depenetration pass lifts the shape by penetration + skin = 0.005.
    m.feed_overlaps(&vec![contact(Vec2 { x: 0, y: S }, -5_000)]);
    m.finish_contacts();
    // The velocity was clipped to (3, 0) and a second sweep is requested.
    assert!(matches!(m.phase, Phase::Sweeping));
    assert_eq!(m.velocity, Vec2 { x: 3 * S, y: 0 });
    m.feed_sweep(None);
    assert!(m.is_finished());
    // Full horizontal distance covered: 3.0; ground kept at skin distance.
    assert_eq!(m.output().position, Vec2 { x: 3 * S, y: -1_985_000 });
    assert_eq!(m.output().projected_velocity, Vec2 { x: 3 * S, y: 0 });
}

#[test]
fn anti_jitter_snaps_to_zero() {
    // When a contact (here with a callback-adjusted velocity) makes the
    // clipped velocity point against the original one, the engine stops
    // dead instead of oscillating.
    let vel = Vec2 { x: 0, y: -10 * S };
    let mut m = MoveAndSlide::begin(
        MoveAndSlideConfig::default(),
        S,
        Vec2 { x: 0, y: 0 },
        0,
        vel,
        S,
    );
    m.feed_initial_overlaps(&vec![]);
    m.feed_sweep(Some(raw_hit(5 * S, Vec2 { x: 0, y: S })));
    assert!(matches!(m.phase, Phase::Collecting));
    // The caller's callback redirects the in-flight velocity and records a
    // tilted plane.
    let c = contact(Vec2 { x: -600_000, y: 800_000 }, -10_000);
    let ctx = m.contact_context(&c);
    assert_eq!(ctx.entity, 7);
    assert_eq!(ctx.collision_distance, 5 * S);
    let response = ContactResponse {
        keep: true,
        normal: c.normal,
        position: ctx.position,
        velocity: Vec2 { x: 4_800_000, y: -3_600_000 },
    };
    let cont = m.apply_contact(&c, &response);
    assert!(cont);
    m.finish_contacts();
    // Clipping (4.8, -3.6) against the tilted plane yields (1.344, 1.008),
    // whose dot with the original (0, -10) is -10.08: anti-jitter fires.
    assert!(m.is_finished());
    assert_eq!(m.output().projected_velocity, Vec2 { x: 0, y: 0 });
}

#[test]
fn plane_cap_stops_collection() {
    let mut config = MoveAndSlideConfig::default();
    config.max_planes = 1;
    let vel = Vec2 { x: 10 * S, y: 0 };
    let mut m = MoveAndSlide::begin(config, S, Vec2 { x: 0, y: 0 }, 0, vel, S);
    m.feed_initial_overlaps(&vec![]);
    m.feed_sweep(Some(raw_hit(5 * S, Vec2 { x: -S, y: 0 })));
    m.feed_overlaps(&vec![
        contact(Vec2 { x: -S, y: 0 }, -10_000),
        contact(Vec2 { x: 0, y: S }, -10_000),
    ]);
    assert_eq!(m.planes.len(), 1);
    assert!(m.stopped);
}

#[test]
fn declined_contact_stops_collection() {
    let vel = Vec2 { x: 10 * S, y: 0 };
    let mut m = MoveAndSlide::begin(
        MoveAndSlideConfig::default(),
        S,
        Vec2 { x: 0, y: 0 },
        0,
        vel,
        S,
    );
    m.feed_initial_overlaps(&vec![]);
    m.feed_sweep(Some(raw_hit(5 * S, Vec2 { x: -S, y: 0 })));
    let c = contact(Vec2 { x: -S, y: 0 }, -10_000);
    let response = ContactResponse {
        keep: false,
        normal: c.normal,
        position: m.position,
        velocity: m.velocity,
    };
    assert!(!m.apply_contact(&c, &response));
    assert_eq!(m.planes.len(), 0);
    assert!(m.stopped);
    // Further offers change nothing.
    let accept = ContactResponse {
        keep: true,
        normal: c.normal,
        position: m.position,
        velocity: m.velocity,
    };
    assert!(!m.apply_contact(&c, &accept));
    assert_eq!(m.planes.len(), 0);
}

#[test]
fn seed_planes_are_respected() {
    // A configured ground plane clips the velocity even when the contact
    // that was hit is a wall.
    let mut config = MoveAndSlideConfig::default();
    config.planes = vec![Vec2 { x: 0, y: S }];
    let vel = Vec2 { x: 3 * S, y: -4 * S };
    let mut m = MoveAndSlide::begin(config, S, Vec2 { x: 0, y: 0 }, 0, vel, S);
    m.feed_initial_overlaps(&vec![]);
    m.feed_sweep(Some(raw_hit(2_500_000, Vec2 { x: 0, y: S })));
    assert_eq!(m.planes, vec![Vec2 { x: 0, y: S }]);
    m.feed_overlaps(&vec![]);
    m.finish_contacts();
    // Clipped against the seed plane alone.
    assert_eq!(m.velocity, Vec2 { x: 3 * S, y: 0 });
}

#[test]
fn cast_move_pulls_back() {
    let movement = Vec2 { x: 10 * S, y: 0 };
    let hit = MoveAndSlide::cast_move(movement, 10_000, Some(raw_hit(5 * S, Vec2 { x: -S, y: 0 })));
    let m = hit.unwrap();
    assert_eq!(m.distance, 4_990_000);
    assert_eq!(m.collision_distance, 5 * S);
    assert!(!m.intersects());
    assert!(MoveAndSlide::cast_move(movement, 10_000, None).is_none());
}

#[test]
fn cast_move_intersecting_start() {
    let movement = Vec2 { x: 10 * S, y: 0 };
    let m = MoveAndSlide::cast_move(movement, 10_000, Some(raw_hit(0, Vec2 { x: -S, y: 0 }))).unwrap();
    assert_eq!(m.distance, 0);
    assert!(m.intersects());
}

#[test]
fn move_config_default_values() {
    let c = MoveAndSlideConfig::default();
    assert_eq!(c.move_and_slide_iterations, 4);
    assert_eq!(c.depenetration_iterations, 16);
    assert_eq!(c.max_depenetration_error, 100);
    assert_eq!(c.penetration_rejection_threshold, 500_000);
    assert_eq!(c.skin_width, 10_000);
    assert!(c.planes.is_empty());
    assert_eq!(c.max_planes, 20);
}

#[test]
fn iteration_budget_is_hard() {
    // With a budget of zero iterations the move ends right after the
    // initial depenetration pass, whatever the velocity.
    let mut config = MoveAndSlideConfig::default();
    config.move_and_slide_iterations = 0;
    let vel = Vec2 { x: S, y: 0 };
    let pos = Vec2 { x: S, y: S };
    let mut m = MoveAndSlide::begin(config, S, pos, 0, vel, S);
    m.feed_initial_overlaps(&vec![]);
    assert!(m.is_finished());
    assert_eq!(m.output().position, pos);
}

#[test]
fn depenetration_config_from_move_config() {
    let c = MoveAndSlideConfig::default();
    let d = move_and_slide::depenetrate::DepenetrationConfig::from(&c);
    assert_eq!(d.depenetration_iterations, c.depenetration_iterations);
    assert_eq!(d.max_depenetration_error, c.max_depenetration_error);
    assert_eq!(d.penetration_rejection_threshold, c.penetration_rejection_threshold);
    assert_eq!(d.skin_width, c.skin_width);
}

#[test]
fn cast_move_zero_movement_is_unsafe_to_move() {
    // A zero-length movement cannot be pulled back along any direction, so
    // the safe distance is zero.
    let m = MoveAndSlide::cast_move(
        Vec2 { x: 0, y: 0 },
        10_000,
        Some(raw_hit(3 * S, Vec2 { x: -S, y: 0 })),
    )
    .unwrap();
    assert_eq!(m.distance, 0);
    assert_eq!(m.collision_distance, 3 * S);
}

#[test]
fn depenetrate_all_pads_by_skin() {
    // The one-call form: each contact's penetration is padded by the skin
    // width before the solver runs.
    let cfg = move_and_slide::depenetrate::DepenetrationConfig::default();
    let r = MoveAndSlide::depenetrate_all(&cfg, S, &vec![contact(Vec2 { x: 0, y: S }, 100_000)]);
    // penetration 0.1 + skin 0.002 resolved exactly along the normal.
    assert_eq!(r, Vec2 { x: 0, y: 102_000 });
    assert_eq!(
        MoveAndSlide::depenetrate_all(&cfg, S, &vec![]),
        Vec2 { x: 0, y: 0 },
    );
}
