//! Kinematics and wheel-angle optimizer behaviour.

use ferris_core::kinematics::{ModuleState, Swerve, Vec2};

/// A square chassis with 25-inch sides, in micrometers.
fn square_swerve() -> Swerve {
    Swerve::rectangle(635_000, 635_000)
}

#[test]
fn forward() {
    let swerve = square_swerve();
    let positions = swerve.calculate(Vec2 { x: 0, y: 1000 }, 0);
    assert_eq!(positions[0].angle, 0);
}

#[test]
fn right() {
    let swerve = square_swerve();
    let positions = swerve.calculate(Vec2 { x: 1000, y: 0 }, 0);
    assert_eq!(positions[0].angle, 90_000);
}

#[test]
fn clockwise() {
    let swerve = square_swerve();
    let positions = swerve.calculate(Vec2 { x: 0, y: 0 }, 1000);
    assert_eq!(positions[0].angle, 135_000);
    assert_eq!(positions[1].angle, 45_000);
}

#[test]
fn opposite() {
    let this = ModuleState { speed: 1000, angle: 180_000 };
    let other = ModuleState { speed: 1000, angle: 0 };
    let goal = ModuleState { speed: -1000, angle: 0 };
    assert_eq!(this.optimize(&other), goal);
}

#[test]
fn close_cycle() {
    let this = ModuleState { speed: 1000, angle: 45_000 };
    let other = ModuleState { speed: 1000, angle: 360_000 };
    let goal = ModuleState { speed: 1000, angle: 360_000 + 45_000 };
    assert_eq!(this.optimize(&other), goal);
}

#[test]
fn close() {
    let this = ModuleState { speed: 1000, angle: 45_000 };
    let other = ModuleState { speed: 1000, angle: 0 };
    let goal = ModuleState { speed: 1000, angle: 45_000 };
    assert_eq!(this.optimize(&other), goal);
}

#[test]
fn close_opposite() {
    let this = ModuleState { speed: 1000, angle: 45_000 + 180_000 };
    let other = ModuleState { speed: 1000, angle: 0 };
    let goal = ModuleState { speed: -1000, angle: 45_000 };
    assert_eq!(this.optimize(&other), goal);
}

#[test]
fn zero_negative() {
    let this = ModuleState { speed: 1000, angle: -360_000 * 2 };
    let other = ModuleState { speed: 1000, angle: 0 };
    let goal = ModuleState { speed: 1000, angle: 0 };
    assert_eq!(this.optimize(&other), goal);
}

#[test]
fn zero_negative_far() {
    let this = ModuleState { speed: 1000, angle: -360_000 * 2 };
    let other = ModuleState { speed: 1000, angle: 360_000 + 180_000 };
    let goal = ModuleState { speed: -1000, angle: 360_000 + 180_000 };
    assert_eq!(this.optimize(&other), goal);
}

#[test]
fn negative_far_close() {
    let this = ModuleState { speed: 1000, angle: -360_000 * 2 + 1_000 };
    let other = ModuleState { speed: 1000, angle: 360_000 + 180_000 };
    let goal = ModuleState { speed: -1000, angle: 360_000 + 180_000 + 1_000 };
    assert_eq!(this.optimize(&other), goal);
}

#[test]
fn negative_far_close_below() {
    let this = ModuleState { speed: 1000, angle: -360_000 * 2 - 30_000 };
    let other = ModuleState { speed: 1000, angle: 360_000 + 180_000 };
    let goal = ModuleState { speed: -1000, angle: 360_000 + 180_000 - 30_000 };
    assert_eq!(this.optimize(&other), goal);
}

#[test]
fn optimizer_winding_preserved() {
    // A measured angle of 725 degrees optimized against a half-turn-flipped
    // target stays near 725 degrees instead of snapping to a low winding.
    let this = ModuleState { speed: 1000, angle: 180_000 };
    let other = ModuleState { speed: 1000, angle: 725_000 };
    let out = this.optimize(&other);
    assert!((out.angle - other.angle).abs() <= 90_000);
    assert_eq!(out.angle, 720_000);
    assert_eq!(out.speed, -1000);
}

#[test]
fn optimizer_round_trip() {
    // The optimized state is kinematically identical to the target: the
    // angle is congruent to the target (plus a half turn when the speed
    // inverted) modulo a full turn.
    let cases: Vec<(i64, i64)> = vec![
        (180_000, 0),
        (45_000, 360_000),
        (225_000, 0),
        (-720_000, 540_000),
        (-750_000, 540_000),
        (1_000, 725_000),
        (359_000, -359_000),
    ];
    for (target, measured) in cases {
        let this = ModuleState { speed: 1000, angle: target };
        let other = ModuleState { speed: 1000, angle: measured };
        let out = this.optimize(&other);
        let shift = if out.speed == 1000 { 0 } else { 180_000 };
        assert_eq!((out.angle - target - shift).rem_euclid(360_000), 0);
        assert!((out.angle - measured).abs() <= 90_000);
    }
}

#[test]
fn normalization_caps_speeds() {
    // However large the request, no post-normalization speed magnitude
    // exceeds full scale.
    let swerve = Swerve::rectangle(571_500, 596_900);
    let out = swerve.calculate(Vec2 { x: 90_000, y: -80_000 }, 70_000);
    for m in &out {
        assert!(m.speed.abs() <= 1000);
    }
}

#[test]
fn pure_rotation_balanced() {
    // Turning in place drives all four modules at exactly equal speed.
    let swerve = Swerve::rectangle(571_500, 596_900);
    let out = swerve.calculate(Vec2 { x: 0, y: 0 }, 800);
    assert_eq!(out[0].speed, out[1].speed);
    assert_eq!(out[0].speed, out[2].speed);
    assert_eq!(out[0].speed, out[3].speed);
    assert!(out[0].speed > 0);
}

#[test]
fn pure_rotation_square_angles() {
    // On a square chassis, pure rotation points each wheel exactly a
    // quarter turn from the radial direction toward its corner.
    let swerve = square_swerve();
    let out = swerve.calculate(Vec2 { x: 0, y: 0 }, 500);
    assert_eq!(out[0].angle, 135_000);
    assert_eq!(out[1].angle, 45_000);
    assert_eq!(out[2].angle, -45_000);
    assert_eq!(out[3].angle, -135_000);
}
