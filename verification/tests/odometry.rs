//! Odometry fusion behaviour: integration, seeding, and vision gating.

use ferris_core::odometry::{ModuleReturn, Odometry, HALF_FIELD_WIDTH_UM};

fn four_samples(distance: i64, angle: i64) -> Vec<ModuleReturn> {
    vec![
        ModuleReturn { distance, angle },
        ModuleReturn { distance, angle },
        ModuleReturn { distance, angle },
        ModuleReturn { distance, angle },
    ]
}

#[test]
fn first_report_seeds_without_motion() {
    let mut odo = Odometry::new();
    odo.calculate(four_samples(5_000, 0), 0);
    assert_eq!(odo.position.x, 0);
    assert_eq!(odo.position.y, 0);
}

#[test]
fn zero_deltas_zero_motion() {
    let mut odo = Odometry::new();
    odo.calculate(four_samples(5_000, 30_000), 10_000);
    odo.calculate(four_samples(5_000, 30_000), 10_000);
    assert_eq!(odo.position.x, 0);
    assert_eq!(odo.position.y, 0);
}

#[test]
fn forward_travel_accumulates() {
    let mut odo = Odometry::new();
    odo.calculate(four_samples(0, 0), 0);
    odo.calculate(four_samples(1_000, 0), 0);
    // At zero heading and zero azimuth, travel goes entirely along x.
    assert_eq!(odo.position.x, 1_000);
    assert_eq!(odo.position.y, 0);
}

#[test]
fn quarter_turn_azimuth_moves_laterally() {
    let mut odo = Odometry::new();
    odo.calculate(four_samples(0, 90_000), 0);
    odo.calculate(four_samples(1_000, 90_000), 0);
    assert_eq!(odo.position.x, 0);
    assert_eq!(odo.position.y, -1_000);
}

#[test]
fn vision_overwrites_position() {
    let mut odo = Odometry::new();
    odo.update_from_vision(100, 2_000_000, 3_000_000, false);
    assert_eq!(odo.position.x, 2_000_000);
    assert_eq!(odo.position.y, 3_000_000);
    assert_eq!(odo.last_vision_ms, 100);
}

#[test]
fn stale_vision_ignored() {
    let mut odo = Odometry::new();
    odo.update_from_vision(100, 2_000_000, 3_000_000, false);
    // An older fix changes nothing.
    odo.update_from_vision(50, 9_000_000, 9_000_000, false);
    assert_eq!(odo.position.x, 2_000_000);
    assert_eq!(odo.position.y, 3_000_000);
    assert_eq!(odo.last_vision_ms, 100);
    // An equal timestamp changes nothing either.
    odo.update_from_vision(100, 9_000_000, 9_000_000, false);
    assert_eq!(odo.position.x, 2_000_000);
}

#[test]
fn red_pose_mirrored() {
    let mut odo = Odometry::new();
    odo.set(500_000, 1_000_000, true);
    assert_eq!(odo.position.x, 500_000);
    assert_eq!(odo.position.y, HALF_FIELD_WIDTH_UM - 1_000_000);
}

#[test]
fn module_count_change_reseeds() {
    let mut odo = Odometry::new();
    odo.calculate(four_samples(0, 0), 0);
    odo.calculate(four_samples(2_000, 0), 0);
    assert_eq!(odo.position.x, 2_000);
    // A report with a different module count only reseeds.
    odo.calculate(vec![ModuleReturn { distance: 9_000, angle: 0 }], 0);
    assert_eq!(odo.position.x, 2_000);
}
