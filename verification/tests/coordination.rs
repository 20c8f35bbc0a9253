//! Action state machines and the per-cycle arbitration.

use ferris_core::actions::{
    FeedShotAction, GrabAction, GrabFullAction, IntakeSensors, LoadAction, MotorCommand,
    ShooterSensors, ShootAction, StageAction, SushiShootAction, TrapezoidProfile, ZeroAction,
    lower_intake, raise_intake, INTAKE_UP_GOAL_MILLIDEG, INTAKE_ZERO_POINT_MILLIDEG,
};
use ferris_core::teleop::{Controllers, DpadDirection, DrivetrainControlState, Ferris, GamepadState, control_drivetrain};

fn idle_intake() -> IntakeSensors {
    IntakeSensors {
        roller_current_milliamp: 0,
        roller_velocity_rpm: 0,
        at_limit: false,
        cam_limit: false,
        position_millideg: 0,
        raw_position_millideg: 0,
    }
}

fn spinning_intake() -> IntakeSensors {
    IntakeSensors { roller_velocity_rpm: 3_000, ..idle_intake() }
}

fn stalled_intake() -> IntakeSensors {
    IntakeSensors { roller_current_milliamp: 25_000, roller_velocity_rpm: 100, ..idle_intake() }
}

fn idle_shooter() -> ShooterSensors {
    ShooterSensors { velocity_rpm: 0, contains_note: false, amp_position_millirev: 0 }
}

fn neutral_inputs() -> Controllers {
    Controllers {
        left_x: 0,
        left_y: 0,
        left_slow: false,
        left_snap: false,
        left_climb_both: false,
        left_reset_heading: false,
        right_z: 0,
        right_eject: false,
        right_podium: false,
        right_hold_angle: false,
        op_fire: false,
        op_shoot_toggle: false,
        op_up: false,
        op_down: false,
        op_manual: false,
        op_grab_full: false,
        op_stage: false,
        op_grab: false,
        op_zero: false,
        op_feed_up: false,
        op_amp_deploy: false,
        op_climb_right_down: false,
        op_climb_left_up: false,
        op_climb_left_down: false,
        op_climb_right_up: false,
        op_amp_stow: false,
        op_throttle: 0,
        gp_a: false,
        gp_b: false,
        gp_x: false,
        gp_y: false,
        gp_left_bumper: false,
        gp_right_bumper: false,
        gp_left_trigger: 0,
        gp_right_trigger: 0,
        gp_left_x: 0,
        gp_left_y: 0,
        gp_right_x: 0,
        gp_left_stick: false,
        gp_right_stick: false,
        gp_dpad: DpadDirection::Center,
    }
}

#[test]
fn grab_waits_then_stops_on_stall() {
    let mut grab = GrabAction::new();
    let (cmd, done) = grab.step(&idle_intake());
    assert_eq!(cmd, MotorCommand::Power(400));
    assert!(!done);
    // A stall before the rollers ever ran does not complete the grab.
    let (cmd, done) = grab.step(&stalled_intake());
    assert_eq!(cmd, MotorCommand::Power(400));
    assert!(!done);
    let (_, done) = grab.step(&spinning_intake());
    assert!(!done);
    let (cmd, done) = grab.step(&stalled_intake());
    assert_eq!(cmd, MotorCommand::Stop);
    assert!(done);
}

#[test]
fn trapezoid_ramps_at_bounded_rate() {
    let mut p = TrapezoidProfile::new(0);
    // 20 ms at the ramp rate moves at most 17.4 degrees.
    let (cmd, ready) = p.step(100_000, 20);
    assert_eq!(cmd, 17_400);
    assert!(!ready);
    let (cmd, _) = p.step(100_000, 20);
    assert_eq!(cmd, 34_800);
    // A goal within reach is hit exactly.
    let (cmd, _) = p.step(40_000, 20);
    assert_eq!(cmd, 40_000);
    let (_, ready) = p.step(40_000, 20);
    assert!(ready);
}

#[test]
fn zero_sequence_captures_offset() {
    let mut zero = ZeroAction::new();
    let at_limit = IntakeSensors { at_limit: true, raw_position_millideg: 50_000, ..idle_intake() };
    let off_limit = IntakeSensors { at_limit: false, raw_position_millideg: 50_000, ..idle_intake() };
    // Seek up until the switch presses.
    let (cmd, cap) = zero.step(&off_limit, 20);
    assert_eq!(cmd, MotorCommand::Power(300));
    assert!(cap.is_none());
    let (cmd, _) = zero.step(&at_limit, 20);
    assert_eq!(cmd, MotorCommand::Power(0));
    // Rest 750 ms.
    let mut t = 0;
    while t < 750 {
        let (_, cap) = zero.step(&at_limit, 250);
        assert!(cap.is_none());
        t += 250;
    }
    // Confirm, then back off until release; the zero is the raw angle
    // minus the switch's known angle.
    let (cmd, _) = zero.step(&at_limit, 20);
    assert_eq!(cmd, MotorCommand::Power(-150));
    let (cmd, cap) = zero.step(&off_limit, 20);
    assert_eq!(cmd, MotorCommand::Stop);
    assert_eq!(cap, Some(50_000 - INTAKE_ZERO_POINT_MILLIDEG));
}

#[test]
fn shoot_waits_for_spinup_and_sag() {
    let mut shoot = ShootAction::new();
    let slow = ShooterSensors { velocity_rpm: 3_000, ..idle_shooter() };
    let fast = ShooterSensors { velocity_rpm: 5_500, ..idle_shooter() };
    let sagged = ShooterSensors { velocity_rpm: 5_200, ..idle_shooter() };
    let (_, _, done) = shoot.step(&slow);
    assert!(!done);
    let (rollers, feeder, done) = shoot.step(&fast);
    assert_eq!(rollers, MotorCommand::Power(-1000));
    assert_eq!(feeder, MotorCommand::Power(-1000));
    assert!(!done);
    let (rollers, feeder, done) = shoot.step(&sagged);
    assert_eq!(rollers, MotorCommand::Stop);
    assert_eq!(feeder, MotorCommand::Stop);
    assert!(done);
}

#[test]
fn stage_walks_the_handoff() {
    let mut stage = StageAction::new(INTAKE_UP_GOAL_MILLIDEG);
    let raised = IntakeSensors { position_millideg: 5_000, ..idle_intake() };
    // The ramp starts at the goal, so one cycle finishes the raise...
    let (cmds, done) = stage.step(&raised, &idle_shooter(), 20);
    assert_eq!(cmds.rollers, MotorCommand::Power(1000));
    assert!(!done);
    // ...then the arm must cross the raised threshold.
    let (_, done) = stage.step(&raised, &idle_shooter(), 20);
    assert!(!done);
    // Settle for 200 ms.
    let (_, done) = stage.step(&raised, &idle_shooter(), 200);
    assert!(!done);
    // Feed until the beam-break sees the note.
    let (cmds, done) = stage.step(&raised, &idle_shooter(), 20);
    assert_eq!(cmds.rollers, MotorCommand::Power(-130));
    assert_eq!(cmds.feeder, MotorCommand::Power(-340));
    assert!(!done);
    let with_note = ShooterSensors { contains_note: true, ..idle_shooter() };
    let (cmds, done) = stage.step(&raised, &with_note, 20);
    assert_eq!(cmds.feeder, MotorCommand::Power(-100));
    assert!(!done);
    // Push until it clears the sensor.
    let (cmds, done) = stage.step(&raised, &idle_shooter(), 20);
    assert_eq!(cmds.feeder, MotorCommand::Power(0));
    assert!(done);
}

#[test]
fn grab_not_restarted_while_live() {
    // Starting "grab" again while the first handle is live must not
    // create a second handle: the live one keeps its progress.
    let mut robot = Ferris::new();
    let mut c = neutral_inputs();
    c.op_grab = true;
    let cmd = robot.container(&c, &idle_intake(), &idle_shooter(), 0, 0, true, 20);
    assert_eq!(cmd.intake_rollers, MotorCommand::Power(400));
    // The rollers have come up to speed: the handle advances to waiting
    // for the stall.
    let cmd = robot.container(&c, &spinning_intake(), &idle_shooter(), 0, 0, true, 20);
    assert_eq!(cmd.intake_rollers, MotorCommand::Power(400));
    // With the button still held, a stall now stops the rollers — which
    // only the *advanced* handle would do; a freshly started handle would
    // still be waiting for spin-up and command power.
    let cmd = robot.container(&c, &stalled_intake(), &idle_shooter(), 0, 0, true, 20);
    assert_eq!(cmd.intake_rollers, MotorCommand::Stop);
}

#[test]
fn cancelled_grab_reverts_to_manual() {
    // Releasing the trigger cancels the handle; on that same cycle the
    // rollers already follow the manual command.
    let mut robot = Ferris::new();
    let mut c = neutral_inputs();
    c.op_grab = true;
    let cmd = robot.container(&c, &idle_intake(), &idle_shooter(), 0, 0, true, 20);
    assert_eq!(cmd.intake_rollers, MotorCommand::Power(400));
    c.op_grab = false;
    c.op_fire = true;
    let cmd = robot.container(&c, &idle_intake(), &idle_shooter(), 0, 0, true, 20);
    // Manual control ejects while fire is held.
    assert_eq!(cmd.intake_rollers, MotorCommand::Power(-1000));
    // And with everything released the rollers stop.
    c.op_fire = false;
    let cmd = robot.container(&c, &idle_intake(), &idle_shooter(), 0, 0, true, 20);
    assert_eq!(cmd.intake_rollers, MotorCommand::Stop);
}

#[test]
fn stage_refuses_while_note_loaded() {
    let mut robot = Ferris::new();
    let mut c = neutral_inputs();
    c.op_stage = true;
    let loaded = ShooterSensors { contains_note: true, ..idle_shooter() };
    let cmd = robot.container(&c, &idle_intake(), &loaded, 0, 0, true, 20);
    // No hand-off started: the rollers follow manual control.
    assert_eq!(cmd.intake_rollers, MotorCommand::Stop);
    // Without a note the hand-off starts and claims the rollers.
    let cmd = robot.container(&c, &idle_intake(), &idle_shooter(), 0, 0, true, 20);
    assert_eq!(cmd.intake_rollers, MotorCommand::Power(1000));
}

#[test]
fn shooter_toggle_edges() {
    let mut robot = Ferris::new();
    let mut c = neutral_inputs();
    // Rising edge turns the flywheel on at the throttle speed.
    c.op_shoot_toggle = true;
    c.op_throttle = 500;
    let cmd = robot.container(&c, &idle_intake(), &idle_shooter(), 0, 0, true, 20);
    assert_eq!(cmd.shooter, Some(MotorCommand::Power(750)));
    // Holding the button does not toggle again.
    let cmd = robot.container(&c, &idle_intake(), &idle_shooter(), 0, 0, true, 20);
    assert_eq!(cmd.shooter, Some(MotorCommand::Power(750)));
    // Release and press again turns it off.
    c.op_shoot_toggle = false;
    let _ = robot.container(&c, &idle_intake(), &idle_shooter(), 0, 0, true, 20);
    c.op_shoot_toggle = true;
    let cmd = robot.container(&c, &idle_intake(), &idle_shooter(), 0, 0, true, 20);
    assert_eq!(cmd.shooter, Some(MotorCommand::Stop));
}

#[test]
fn dpad_switches_layers() {
    let mut robot = Ferris::new();
    assert!(matches!(robot.gamepad_state, GamepadState::Auto));
    let mut c = neutral_inputs();
    c.gp_dpad = DpadDirection::Left;
    let _ = robot.container(&c, &idle_intake(), &idle_shooter(), 0, 0, true, 20);
    assert!(matches!(robot.gamepad_state, GamepadState::Manual));
    c.gp_dpad = DpadDirection::Center;
    let _ = robot.container(&c, &idle_intake(), &idle_shooter(), 0, 0, true, 20);
    assert!(matches!(robot.gamepad_state, GamepadState::Manual));
}

#[test]
fn grab_full_chains_lower_grab_handoff() {
    let lowered = IntakeSensors { position_millideg: -70_000, ..idle_intake() };
    let mut action = GrabFullAction::new(-70_000);
    // The arm starts at the lowered goal, so the ramp finishes at once...
    let (cmds, done) = action.step(&lowered, &idle_shooter(), 20);
    assert_eq!(cmds.rollers, MotorCommand::Stop);
    assert!(!done);
    // ...and after the threshold check the rollers come on.
    let (_, _) = action.step(&lowered, &idle_shooter(), 20);
    let (cmds, _) = action.step(&lowered, &idle_shooter(), 20);
    assert_eq!(cmds.rollers, MotorCommand::Power(600));
    // Spin up, stall: the hand-off takes over and raises the arm.
    let spinning = IntakeSensors { position_millideg: -70_000, ..spinning_intake() };
    let stalled = IntakeSensors { position_millideg: -70_000, ..stalled_intake() };
    let (_, _) = action.step(&spinning, &idle_shooter(), 20);
    let (cmds, _) = action.step(&stalled, &idle_shooter(), 20);
    assert_eq!(cmds.rollers, MotorCommand::Stop);
    let (cmds, done) = action.step(&stalled, &idle_shooter(), 20);
    assert_eq!(cmds.rollers, MotorCommand::Power(1000));
    assert!(!done);
}

#[test]
fn feed_shot_bursts_after_spinup() {
    let mut shot = FeedShotAction::new();
    let slow = ShooterSensors { velocity_rpm: 4_000, ..idle_shooter() };
    let fast = ShooterSensors { velocity_rpm: 5_100, ..idle_shooter() };
    let (cmd, done) = shot.step(&slow, 20);
    assert_eq!(cmd, MotorCommand::Stop);
    assert!(!done);
    let (cmd, _) = shot.step(&fast, 20);
    assert_eq!(cmd, MotorCommand::Power(-400));
    let (_, done) = shot.step(&fast, 200);
    assert!(!done);
    let (cmd, done) = shot.step(&fast, 300);
    assert_eq!(cmd, MotorCommand::Power(0));
    assert!(done);
}

#[test]
fn sushi_shoot_uses_feeder_only() {
    let mut shot = SushiShootAction::new();
    let fast = ShooterSensors { velocity_rpm: 5_500, ..idle_shooter() };
    let sagged = ShooterSensors { velocity_rpm: 5_000, ..idle_shooter() };
    let (cmd, _) = shot.step(&fast);
    assert_eq!(cmd, MotorCommand::Power(-1000));
    let (cmd, done) = shot.step(&sagged);
    assert_eq!(cmd, MotorCommand::Stop);
    assert!(done);
}

#[test]
fn load_pulls_until_beam_break() {
    let mut load = LoadAction::new();
    let (cmd, done) = load.step(&idle_shooter());
    assert_eq!(cmd, MotorCommand::Power(-200));
    assert!(!done);
    let with_note = ShooterSensors { contains_note: true, ..idle_shooter() };
    let (cmd, done) = load.step(&with_note);
    assert_eq!(cmd, MotorCommand::Stop);
    assert!(done);
}

#[test]
fn lift_ramps_then_waits_for_threshold() {
    let mut lift = lower_intake(0);
    // Ramp toward the lowered goal at the bounded rate.
    let (cmd, done) = lift.step(&idle_intake(), 20);
    assert_eq!(cmd, MotorCommand::Position(-17_400));
    assert!(!done);
    // Once ramped, it holds the goal until the arm crosses the threshold.
    let mut raise = raise_intake(INTAKE_UP_GOAL_MILLIDEG);
    let low = IntakeSensors { position_millideg: 0, ..idle_intake() };
    let high = IntakeSensors { position_millideg: 5_000, ..idle_intake() };
    let (_, done) = raise.step(&low, 20);
    assert!(!done);
    let (_, done) = raise.step(&low, 20);
    assert!(!done);
    let (cmd, done) = raise.step(&high, 20);
    assert_eq!(cmd, MotorCommand::Position(INTAKE_UP_GOAL_MILLIDEG));
    assert!(done);
}

#[test]
fn drivetrain_assists_pick_rotation_source() {
    // Podium aim on the blue alliance: the heading error is negated and
    // fed through the proportional turn gain.
    let mut c = neutral_inputs();
    c.right_podium = true;
    let mut state = DrivetrainControlState { saved_angle: None };
    let cmd = control_drivetrain(&c, GamepadState::Auto, 0, 0, true, &mut state);
    assert_eq!(cmd.rot, 179);
    // Quarter-turn snap: ten degrees past a right angle turns back.
    let mut c = neutral_inputs();
    c.left_snap = true;
    let cmd = control_drivetrain(&c, GamepadState::Auto, 100_000, 0, true, &mut state);
    assert_eq!(cmd.rot, -52);
    // Heading hold: the angle captured while free is held once the stick
    // centers and the hold button is pressed.
    let mut c = neutral_inputs();
    let mut state = DrivetrainControlState { saved_angle: None };
    let _ = control_drivetrain(&c, GamepadState::Auto, 30_000, 0, true, &mut state);
    c.right_hold_angle = true;
    let cmd = control_drivetrain(&c, GamepadState::Auto, 50_000, 0, true, &mut state);
    assert_eq!(cmd.rot, -104);
    // With no assist the stick rules; inside the deadband it is zero.
    let mut c = neutral_inputs();
    c.right_z = 30;
    let cmd = control_drivetrain(&c, GamepadState::Auto, 0, 0, true, &mut state);
    assert_eq!(cmd.rot, 0);
    c.right_z = 520;
    let cmd = control_drivetrain(&c, GamepadState::Auto, 0, 0, true, &mut state);
    assert_eq!(cmd.rot, (520 - 40) * 1000 / 960);
}

#[test]
fn climber_stops_when_released() {
    let mut robot = Ferris::new();
    let mut c = neutral_inputs();
    let cmd = robot.container(&c, &idle_intake(), &idle_shooter(), 0, 0, true, 20);
    assert_eq!(cmd.climber_left, Some(MotorCommand::Stop));
    assert_eq!(cmd.climber_right, Some(MotorCommand::Stop));
    c.left_climb_both = true;
    let cmd = robot.container(&c, &idle_intake(), &idle_shooter(), 0, 0, true, 20);
    assert_eq!(cmd.climber_left, Some(MotorCommand::Power(-1000)));
    assert_eq!(cmd.climber_right, Some(MotorCommand::Power(1000)));
}
