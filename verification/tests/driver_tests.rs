//! Tests for the one-call driver, with closures playing the geometry
//! provider.

use move_and_slide::driver::move_and_slide;
use move_and_slide::engine::{
    Contact, ContactResponse, MoveAndSlideConfig, MoveAndSlideHitData, RawSweepHit,
};
use move_and_slide::fixed::SCALE;
use move_and_slide::vec2::Vec2;

const S: i64 = SCALE;

fn keep_contact(ctx: MoveAndSlideHitData) -> ContactResponse {
    ContactResponse {
        keep: true,
        normal: ctx.normal,
        position: ctx.position,
        velocity: ctx.velocity,
    }
}

#[test]
fn driver_empty_scene_full_move() {
    let pos = Vec2 { x: S, y: S };
    let vel = Vec2 { x: 2 * S, y: -S };
    let out = move_and_slide(
        MoveAndSlideConfig::default(),
        S,
        pos,
        0,
        vel,
        S,
        &|_p: Vec2, _r: i64, _m: i64| Vec::<Contact>::new(),
        &|_p: Vec2, _r: i64, _mv: Vec2, _max: i64| None::<RawSweepHit>,
        &keep_contact,
    );
    assert_eq!(out.position, Vec2 { x: 3 * S, y: 0 });
    assert_eq!(out.projected_velocity, vel);
}

#[test]
fn driver_ground_stops_fall() {
    // The shape falls straight down; a flat ground lies 2 units below.
    // The sweep reports the hit and the overlap query then reports the
    // ground contact, so the move stops at the ground (minus the skin) and
    // the velocity is clipped to zero.
    let pos = Vec2 { x: 0, y: 2 * S };
    let vel = Vec2 { x: 0, y: -4 * S };
    let up = Vec2 { x: 0, y: S };
    let out = move_and_slide(
        MoveAndSlideConfig::default(),
        S,
        pos,
        0,
        vel,
        S,
        &move |p: Vec2, _r: i64, margin: i64| {
            // Within margin of the ground only when low enough.
            if p.y <= 10_000 + margin {
                vec![Contact {
                    entity: 1,
                    point: Vec2 { x: p.x, y: 0 },
                    normal: up,
                    penetration: -(p.y.max(0)),
                }]
            } else {
                Vec::new()
            }
        },
        &move |p: Vec2, _r: i64, mv: Vec2, max: i64| {
            if mv.y < 0 && p.y >= 0 {
                // Distance straight down to the ground plane.
                let d = p.y.min(max).max(0);
                Some(RawSweepHit {
                    entity: 1,
                    distance: d,
                    point1: Vec2 { x: p.x, y: 0 },
                    point2: Vec2 { x: p.x, y: 0 },
                    normal1: up,
                    normal2: Vec2 { x: 0, y: -S },
                })
            } else {
                None
            }
        },
        &keep_contact,
    );
    // Stopped at the skin width above the ground: 2.0 fallen minus 0.01.
    assert_eq!(out.position, Vec2 { x: 0, y: 10_000 });
    assert_eq!(out.projected_velocity, Vec2 { x: 0, y: 0 });
}
