//! Tests for the velocity clipper.

use move_and_slide::clip::DOT_EPSILON;
use move_and_slide::engine::MoveAndSlide;
use move_and_slide::fixed::SCALE;
use move_and_slide::vec2::{v2_dot, Vec2};

const S: i64 = SCALE;

#[test]
fn clipper_no_op_fast_path() {
    // The velocity already satisfies the plane: returned bit for bit.
    let v = Vec2 { x: 7 * S, y: 3 * S };
    let normals = vec![Vec2 { x: 0, y: S }];
    assert_eq!(MoveAndSlide::project_velocity(v, &normals), v);
    // No planes at all: also unchanged.
    assert_eq!(MoveAndSlide::project_velocity(v, &vec![]), v);
}

#[test]
fn clipper_single_plane_projection() {
    // Falling onto flat ground: the vertical part is removed exactly.
    let v = Vec2 { x: 3 * S, y: -2 * S };
    let ground = vec![Vec2 { x: 0, y: S }];
    assert_eq!(MoveAndSlide::project_velocity(v, &ground), Vec2 { x: 3 * S, y: 0 });
}

#[test]
fn clipper_corner_trapped_returns_zero() {
    // An inward corner: no single-plane projection satisfies both planes,
    // so the clipper collapses to the apex, exactly zero.
    let v = Vec2 { x: S, y: -S };
    let normals = vec![Vec2 { x: 0, y: S }, Vec2 { x: -S, y: 0 }];
    assert_eq!(MoveAndSlide::project_velocity(v, &normals), Vec2 { x: 0, y: 0 });
}

#[test]
fn clipper_corner_open_slides_along_floor() {
    // Floor normal (0,1) and a wall the velocity does not move into,
    // normal (1,0): projecting onto the floor alone is valid, so the
    // clipper slides along the floor instead of stopping.
    let v = Vec2 { x: S, y: -S };
    let normals = vec![Vec2 { x: 0, y: S }, Vec2 { x: S, y: 0 }];
    assert_eq!(MoveAndSlide::project_velocity(v, &normals), Vec2 { x: S, y: 0 });
}

#[test]
fn clipper_feasibility() {
    // Whatever the clipper returns satisfies every plane within tolerance.
    let cases: Vec<(Vec2, Vec<Vec2>)> = vec![
        (Vec2 { x: S, y: -S }, vec![Vec2 { x: 0, y: S }, Vec2 { x: S, y: 0 }]),
        (Vec2 { x: S, y: -S }, vec![Vec2 { x: 0, y: S }, Vec2 { x: -S, y: 0 }]),
        (Vec2 { x: -4 * S, y: -3 * S }, vec![Vec2 { x: 600_000, y: 800_000 }]),
        (Vec2 { x: 0, y: -10 * S }, vec![Vec2 { x: 0, y: S }]),
        (
            Vec2 { x: 2 * S, y: -5 * S },
            vec![Vec2 { x: 600_000, y: 800_000 }, Vec2 { x: -600_000, y: 800_000 }],
        ),
    ];
    for (v, normals) in cases {
        let r = MoveAndSlide::project_velocity(v, &normals);
        for n in &normals {
            assert!(v2_dot(r, *n) >= -DOT_EPSILON);
        }
    }
}
