//! Trajectory sampling and follower termination behaviour.

use ferris_core::kinematics::Vec2;
use ferris_core::path::{
    FollowerGains, FollowerState, PathSample, Trajectory, follow_step,
};

/// A straight two-second path from the origin to (1 m, 2 m) at heading 0.
fn path_a() -> Trajectory {
    let samples = vec![
        PathSample {
            time_ms: 0,
            x: 0,
            y: 0,
            heading: 0,
            velocity_x: 500_000,
            velocity_y: 1_000_000,
        },
        PathSample {
            time_ms: 2_000,
            x: 1_000_000,
            y: 2_000_000,
            heading: 0,
            velocity_x: 0,
            velocity_y: 0,
        },
    ];
    Trajectory::new(samples).unwrap()
}

#[test]
fn sampling_interpolates_linearly() {
    let path = path_a();
    let s = path.sample(500);
    assert_eq!(s.x, 250_000);
    assert_eq!(s.y, 500_000);
    let s = path.sample(1_000);
    assert_eq!(s.x, 500_000);
    assert_eq!(s.y, 1_000_000);
}

#[test]
fn sampling_clamps_at_both_ends() {
    let path = path_a();
    let before = path.sample(0);
    assert_eq!(before.x, 0);
    let after = path.sample(3_000);
    assert_eq!(after.x, 1_000_000);
    assert_eq!(after.y, 2_000_000);
}

#[test]
fn rejects_unordered_samples() {
    let samples = vec![
        PathSample { time_ms: 100, x: 0, y: 0, heading: 0, velocity_x: 0, velocity_y: 0 },
        PathSample { time_ms: 100, x: 1, y: 1, heading: 0, velocity_x: 0, velocity_y: 0 },
    ];
    assert!(Trajectory::new(samples).is_none());
    assert!(Trajectory::new(Vec::new()).is_none());
}

#[test]
fn early_but_converged_keeps_following() {
    // Geometrically converged, but the time has not run out: not done.
    let path = path_a();
    let gains = FollowerGains::competition();
    let mut state = FollowerState::new();
    let on_path = path.sample(1_000);
    let cmd = follow_step(&path, 1_000, 20, false, Vec2 { x: on_path.x, y: on_path.y }, 0,
        &gains, &mut state);
    assert!(!cmd.done);
}

#[test]
fn late_but_off_course_keeps_following() {
    // Past the duration but off the end pose: not done.
    let path = path_a();
    let gains = FollowerGains::competition();
    let mut state = FollowerState::new();
    let cmd = follow_step(&path, 2_500, 20, false, Vec2 { x: 0, y: 0 }, 0, &gains, &mut state);
    assert!(!cmd.done);
}

#[test]
fn late_but_misheaded_keeps_following() {
    // Past the duration, at the end position, but facing the wrong way.
    let path = path_a();
    let gains = FollowerGains::competition();
    let mut state = FollowerState::new();
    let cmd = follow_step(&path, 2_500, 20, false,
        Vec2 { x: 1_000_000, y: 2_000_000 }, 90_000, &gains, &mut state);
    assert!(!cmd.done);
}

#[test]
fn late_and_converged_terminates() {
    let path = path_a();
    let gains = FollowerGains::competition();
    let mut state = FollowerState::new();
    let cmd = follow_step(&path, 2_500, 20, false,
        Vec2 { x: 1_000_000, y: 2_000_000 }, 0, &gains, &mut state);
    assert!(cmd.done);
    assert_eq!(cmd.fwd, 0);
    assert_eq!(cmd.strafe, 0);
    assert_eq!(cmd.rot, 0);
}

#[test]
fn position_error_drives_toward_setpoint() {
    // Behind the setpoint along x, the proportional term pushes along -x
    // of the error sign convention: error = setpoint - position > 0, so
    // the command is negative (the drivetrain's forward sense).
    let path = path_a();
    let gains = FollowerGains::competition();
    let mut state = FollowerState::new();
    let cmd = follow_step(&path, 1_000, 20, false, Vec2 { x: 0, y: 1_000_000 }, 0, &gains,
        &mut state);
    // error_x = 500 mm = 500_000 um; kp 0.3 -> -150 milli.
    assert_eq!(cmd.fwd, -150);
    assert_eq!(cmd.strafe, 0);
}

#[test]
fn red_alliance_mirrors_setpoint() {
    let path = path_a();
    let gains = FollowerGains::competition();
    let mut state = FollowerState::new();
    // On the red alliance the sampled y is mirrored across the short axis;
    // standing at the mirrored end pose terminates late.
    let mirrored_y = ferris_core::odometry::HALF_FIELD_WIDTH_UM - 2_000_000;
    let cmd = follow_step(&path, 2_500, 20, true, Vec2 { x: 1_000_000, y: mirrored_y }, 0,
        &gains, &mut state);
    assert!(cmd.done);
}

#[test]
fn full_path_scenario() {
    // A robot tracking the path perfectly reports done within the duration
    // plus a settle margin, and finishes at the end pose.
    let path = path_a();
    let gains = FollowerGains::competition();
    let mut state = FollowerState::new();
    let mut t: i64 = 0;
    let mut done_at: Option<i64> = None;
    let mut position = Vec2 { x: 0, y: 0 };
    while t <= 2_600 {
        let s = path.sample(t);
        position = Vec2 { x: s.x, y: s.y };
        let cmd = follow_step(&path, t, 20, false, position, 0, &gains, &mut state);
        if cmd.done {
            done_at = Some(t);
            break;
        }
        t += 20;
    }
    let done_at = done_at.expect("path never reported done");
    assert!(done_at > 2_000);
    assert!(done_at <= 2_600);
    assert!((position.x - 1_000_000).abs() < gains.max_err_um);
    assert!((position.y - 2_000_000).abs() < gains.max_err_um);
}
