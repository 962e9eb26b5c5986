//! Tests for the depenetration solver.

use move_and_slide::depenetrate::DepenetrationConfig;
use move_and_slide::engine::MoveAndSlide;
use move_and_slide::fixed::SCALE;
use move_and_slide::vec2::{v2_dot, Vec2};

const S: i64 = SCALE;

#[test]
fn depenetration_empty_is_zero() {
    let cfg = DepenetrationConfig::default();
    let r = MoveAndSlide::depenetrate(&cfg, S, &vec![]);
    assert_eq!(r, Vec2 { x: 0, y: 0 });
}

#[test]
fn depenetration_convergence_single_contact() {
    // One contact (normal (0,1), penetration 0.5), default config: the
    // displacement's dot product with the normal lands within the error
    // target of 0.5 — here it is exact.
    let cfg = DepenetrationConfig::default();
    let up = Vec2 { x: 0, y: S };
    let r = MoveAndSlide::depenetrate(&cfg, S, &vec![(up, 500_000)]);
    assert_eq!(r, Vec2 { x: 0, y: 500_000 });
    let along = v2_dot(r, up);
    assert!((along - 500_000).abs() <= cfg.max_depenetration_error);
}

#[test]
fn depenetration_rejects_degenerate_contact() {
    // A contact deeper than the rejection threshold (0.5 length units) is
    // skipped entirely, so nothing is corrected.
    let cfg = DepenetrationConfig::default();
    let r = MoveAndSlide::depenetrate(&cfg, S, &vec![(Vec2 { x: 0, y: S }, 600_000)]);
    assert_eq!(r, Vec2 { x: 0, y: 0 });
}

#[test]
fn depenetration_two_orthogonal_contacts() {
    // Two orthogonal planes are resolved independently in one round.
    let cfg = DepenetrationConfig::default();
    let contacts = vec![(Vec2 { x: 0, y: S }, 100_000), (Vec2 { x: S, y: 0 }, 200_000)];
    let r = MoveAndSlide::depenetrate(&cfg, S, &contacts);
    assert_eq!(r, Vec2 { x: 200_000, y: 100_000 });
}

#[test]
fn depenetration_config_default_values() {
    let cfg = DepenetrationConfig::default();
    assert_eq!(cfg.depenetration_iterations, 16);
    assert_eq!(cfg.max_depenetration_error, 100);
    assert_eq!(cfg.penetration_rejection_threshold, 500_000);
    assert_eq!(cfg.skin_width, 2_000);
}
