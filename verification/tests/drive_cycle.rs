//! The drivetrain's full cycle: request in, wheel commands and odometry out.

use ferris_core::drivetrain::Drivetrain;
use ferris_core::kinematics::{ModuleState, Swerve};

fn straight_ahead() -> Vec<ModuleState> {
    vec![ModuleState { speed: 0, angle: 0 }; 4]
}

#[test]
fn forward_request_keeps_wheels_straight() {
    let mut dt = Drivetrain::new(Swerve::rectangle(635_000, 635_000));
    let out = dt.set_speeds(-500, 0, 0, 0, &straight_ahead(), &vec![0; 4]);
    assert_eq!(out.len(), 4);
    for wheel in &out {
        assert_eq!(wheel.angle, 0);
        assert_eq!(wheel.speed, 500);
    }
}

#[test]
fn wheel_travel_feeds_odometry() {
    let mut dt = Drivetrain::new(Swerve::rectangle(635_000, 635_000));
    // The first cycle only seeds the stored samples.
    let _ = dt.set_speeds(-500, 0, 0, 0, &straight_ahead(), &vec![0; 4]);
    assert_eq!(dt.odometry.position.x, 0);
    // A millimeter of travel on every straight wheel moves the estimate a
    // millimeter along x.
    let _ = dt.set_speeds(-500, 0, 0, 0, &straight_ahead(), &vec![1_000; 4]);
    assert_eq!(dt.odometry.position.x, 1_000);
    assert_eq!(dt.odometry.position.y, 0);
}

#[test]
fn measured_winding_is_respected() {
    let mut dt = Drivetrain::new(Swerve::rectangle(635_000, 635_000));
    // Wheels measured at two full turns plus a half: a straight-ahead
    // request flips the drive direction rather than unwinding the wheel.
    let measured = vec![ModuleState { speed: 0, angle: 720_000 + 180_000 }; 4];
    let out = dt.set_speeds(-500, 0, 0, 0, &measured, &vec![0; 4]);
    for wheel in &out {
        assert_eq!(wheel.angle, 720_000 + 180_000);
        assert_eq!(wheel.speed, -500);
    }
}

#[test]
fn heading_offset_wraps() {
    let mut dt = Drivetrain::new(Swerve::rectangle(635_000, 635_000));
    dt.reset_heading(90_000);
    assert_eq!(dt.get_offset(90_000), 0);
    assert_eq!(dt.get_offset(450_000), 0);
    assert_eq!(dt.get_offset(280_000), -170_000);
}
