//! Teleoperated control decisions and the per-cycle arbitration between
//! manual control and the cancellable actions.
//!
//! Every cycle the coordinator receives one immutable snapshot of the
//! driver inputs and sensor state, computes what manual control would set
//! on every device, starts or cancels actions by the arbitration rules,
//! steps the live actions, and answers with one command per device: a
//! device claimed by a live action follows the action, every other device
//! follows manual control.  At most one handle per action exists at a time;
//! cancelling is dropping the handle, after which the device reverts to the
//! manual command on the very next cycle.

use vstd::prelude::*;

use crate::actions::{
    GrabAction, StageAction, GrabFullAction, ZeroAction, MotorCommand, StageCommands,
    IntakeSensors, ShooterSensors, grab_step_spec, stage_step_spec, grab_full_step_spec,
    zero_step_spec, clamp_arm_spec, INTAKE_UP_GOAL_MILLIDEG, INTAKE_DOWN_GOAL_MILLIDEG,
    AMP_STOWED_MILLIREV, AMP_DEPLOYED_MILLIREV, ARM_ANGLE_BOUND_MILLIDEG,
};
use crate::angle::{wrap_half_spec, wrap_half, ANGLE_BOUND_MILLIDEG};
use crate::kinematics::div_trunc_spec;
use crate::path::{mul128, div_trunc128, PI_MICRO};

verus! {

/// Proportional heading gain of the turn assists, milli.
pub const TURN_KP_MILLI: i64 = 300;

/// Heading offset of the podium shot, millidegrees.
pub const PODIUM_SHOT_ANGLE_MILLIDEG: i64 = 34_340;

/// Joystick deadband, milli.
pub const JOYSTICK_DEADBAND_MILLI: i64 = 40;

/// Which layer of game-pad bindings is active.
#[derive(Clone, Copy, Debug, PartialEq, Eq, Structural)]
pub enum GamepadState {
    Auto,
    Manual,
    Climb,
    Drive,
}

/// A directional-pad reading.
#[derive(Clone, Copy, Debug, PartialEq, Eq, Structural)]
pub enum DpadDirection {
    Up,
    Down,
    Left,
    Right,
    Center,
}

/// One cycle's snapshot of every driver input.  Axes and triggers are
/// milli-fraction; buttons are booleans named for their role.
#[derive(Clone, Copy, Debug, PartialEq, Eq, Structural)]
pub struct Controllers {
    pub left_x: i64,
    pub left_y: i64,
    /// Slow-mode trigger on the left drive stick.
    pub left_slow: bool,
    /// Snap the heading to the nearest quarter turn.
    pub left_snap: bool,
    /// Drive both climber hooks up.
    pub left_climb_both: bool,
    /// Re-zero the field heading.
    pub left_reset_heading: bool,
    pub right_z: i64,
    /// Eject / fire held on the right drive stick.
    pub right_eject: bool,
    /// Turn toward the podium shot.
    pub right_podium: bool,
    /// Hold the current heading while translating.
    pub right_hold_angle: bool,
    /// Operator buttons, by function.
    pub op_fire: bool,
    pub op_shoot_toggle: bool,
    pub op_up: bool,
    pub op_down: bool,
    pub op_manual: bool,
    pub op_grab_full: bool,
    pub op_stage: bool,
    pub op_grab: bool,
    pub op_zero: bool,
    pub op_feed_up: bool,
    pub op_amp_deploy: bool,
    pub op_climb_right_down: bool,
    pub op_climb_left_up: bool,
    pub op_climb_left_down: bool,
    pub op_climb_right_up: bool,
    pub op_amp_stow: bool,
    /// Operator throttle lever, milli in `[-1000, 1000]`.
    pub op_throttle: i64,
    pub gp_a: bool,
    pub gp_b: bool,
    pub gp_x: bool,
    pub gp_y: bool,
    pub gp_left_bumper: bool,
    pub gp_right_bumper: bool,
    pub gp_left_trigger: i64,
    pub gp_right_trigger: i64,
    pub gp_left_x: i64,
    pub gp_left_y: i64,
    pub gp_right_x: i64,
    pub gp_left_stick: bool,
    pub gp_right_stick: bool,
    pub gp_dpad: DpadDirection,
}

impl Controllers {
    /// Axes and triggers within full scale.
    pub open spec fn wf(self) -> bool {
        &&& -1000 <= self.left_x <= 1000
        &&& -1000 <= self.left_y <= 1000
        &&& -1000 <= self.right_z <= 1000
        &&& -1000 <= self.op_throttle <= 1000
        &&& 0 <= self.gp_left_trigger <= 1000
        &&& 0 <= self.gp_right_trigger <= 1000
        &&& -1000 <= self.gp_left_x <= 1000
        &&& -1000 <= self.gp_left_y <= 1000
        &&& -1000 <= self.gp_right_x <= 1000
    }
}

/// The game-pad layer after a directional-pad press; no press keeps the
/// previous layer.
pub open spec fn next_gamepad_state_spec(d: DpadDirection, prev: GamepadState) -> GamepadState {
    match d {
        DpadDirection::Left => GamepadState::Manual,
        DpadDirection::Up => GamepadState::Climb,
        DpadDirection::Down => GamepadState::Auto,
        DpadDirection::Right => GamepadState::Drive,
        DpadDirection::Center => prev,
    }
}

/// Shape a raw axis: inside the deadband nothing, outside it the magnitude
/// rescaled linearly from `(dead, 1000]` onto `(out_start, out_end]`, sign
/// kept.
pub open spec fn shape_axis_spec(v: int, dead: int, out_start: int, out_end: int) -> int {
    let m = if v >= 0 { v } else { -v };
    if m <= dead {
        0
    } else {
        let scaled = out_start + div_trunc_spec((m - dead) * (out_end - out_start), 1000 - dead);
        if v >= 0 { scaled } else { -scaled }
    }
}

/// Shape a raw axis into an output band.
pub fn shape_axis(v: i64, dead: i64, out_start: i64, out_end: i64) -> (r: i64)
    requires
        -1000 <= v <= 1000,
        0 <= dead < 1000,
        -1_000_000 <= out_start <= 1_000_000,
        -1_000_000 <= out_end <= 1_000_000,
    ensures
        r == shape_axis_spec(v as int, dead as int, out_start as int, out_end as int),
        -3_000_000 <= r <= 3_000_000,
{
    let m = if v >= 0 { v } else { -v };
    if m <= dead {
        0
    } else {
        proof {
            assert(-(((1000 - dead) as int) * 2_000_000) <= ((m - dead) as int) * ((out_end
                - out_start) as int) <= ((1000 - dead) as int) * 2_000_000)
                by (nonlinear_arith)
                requires
                    0 <= (m - dead) as int <= (1000 - dead) as int,
                    -2_000_000 <= (out_end - out_start) as int <= 2_000_000;
            crate::kinematics::lemma_div_trunc_cap(((m - dead) as int) * ((out_end
                - out_start) as int), (1000 - dead) as int, 2_000_000);
        }
        let scaled = out_start + crate::kinematics::div_trunc(
            (m - dead) * (out_end - out_start), 1000 - dead);
        if v >= 0 { scaled } else { -scaled }
    }
}

/// The squared magnitude curve applied to game-pad sticks, milli.
pub open spec fn square_axis_spec(v: int) -> int {
    v * v / 1000
}

/// Square a game-pad axis (always nonnegative).
pub fn square_axis(v: i64) -> (r: i64)
    requires
        -1000 <= v <= 1000,
    ensures
        r == square_axis_spec(v as int),
        0 <= r <= 1000,
{
    proof {
        assert(0 <= (v as int) * (v as int) <= 1_000_000) by (nonlinear_arith)
            requires -1000 <= v as int <= 1000;
        vstd::arithmetic::div_mod::lemma_div_pos_is_pos((v as int) * (v as int), 1000);
        vstd::arithmetic::div_mod::lemma_div_is_ordered((v as int) * (v as int), 1_000_000,
            1000);
    }
    (v * v) / 1000
}

/// The proportional heading command for an unwrapped millidegree error:
/// the error in radians times the turn gain, milli-fraction.
pub open spec fn turn_cmd_spec(err_millideg: int) -> int {
    div_trunc_spec(err_millideg * TURN_KP_MILLI * PI_MICRO, 180_000_000_000)
}

/// Evaluate the proportional heading command.
pub fn turn_cmd(err_millideg: i64) -> (r: i64)
    requires
        -4 * ANGLE_BOUND_MILLIDEG <= err_millideg <= 4 * ANGLE_BOUND_MILLIDEG,
    ensures
        r == turn_cmd_spec(err_millideg as int),
{
    let p1 = mul128(err_millideg as i128, TURN_KP_MILLI as i128);
    proof {
        assert(-1_200_000_000_000_000 <= p1 <= 1_200_000_000_000_000) by (nonlinear_arith)
            requires
                p1 == err_millideg as int * (TURN_KP_MILLI as int),
                -4_000_000_000_000 <= err_millideg as int <= 4_000_000_000_000,
                TURN_KP_MILLI == 300;
    }
    let p2 = mul128(p1, PI_MICRO as i128);
    let q = div_trunc128(p2, 180_000_000_000);
    proof {
        crate::kinematics::lemma_div_trunc_cap(p2 as int, 180_000_000_000,
            100_000_000_000);
        assert(-(180_000_000_000int * 100_000_000_000) <= p2 as int
            <= 180_000_000_000int * 100_000_000_000) by (nonlinear_arith)
            requires
                p2 == p1 as int * (PI_MICRO as int),
                -1_200_000_000_000_000 <= p1 as int <= 1_200_000_000_000_000,
                PI_MICRO == 3_141_593;
    }
    q as i64
}

/// The nearest multiple of a quarter turn, half-way cases away from zero.
pub open spec fn round_quarter_spec(a: int) -> int {
    if a >= 0 {
        ((a + 45_000) / 90_000) * 90_000
    } else {
        -(((-a + 45_000) / 90_000) * 90_000)
    }
}

/// Round a millidegree angle to the nearest quarter turn.
pub fn round_quarter(a: i64) -> (r: i64)
    requires
        -ANGLE_BOUND_MILLIDEG * 2 <= a <= ANGLE_BOUND_MILLIDEG * 2,
    ensures
        r == round_quarter_spec(a as int),
        -ANGLE_BOUND_MILLIDEG * 2 - 45_000 <= r <= ANGLE_BOUND_MILLIDEG * 2 + 45_000,
{
    if a >= 0 {
        let q = (a + 45_000) / 90_000;
        proof {
            vstd::arithmetic::div_mod::lemma_div_pos_is_pos(a as int + 45_000, 90_000);
            vstd::arithmetic::div_mod::lemma_div_is_ordered(a as int + 45_000,
                2_000_000_045_000, 90_000);
        }
        q * 90_000
    } else {
        let q = (-a + 45_000) / 90_000;
        proof {
            vstd::arithmetic::div_mod::lemma_div_pos_is_pos(-a as int + 45_000, 90_000);
            vstd::arithmetic::div_mod::lemma_div_is_ordered(-a as int + 45_000,
                2_000_000_045_000, 90_000);
        }
        -(q * 90_000)
    }
}

/// Cross-cycle state of the drivetrain's teleoperated control.
#[derive(Clone, Copy, Debug, PartialEq, Eq, Structural)]
pub struct DrivetrainControlState {
    /// The heading held while the hold-angle assist is active.
    pub saved_angle: Option<i64>,
}

impl Default for DrivetrainControlState {
    /// No heading held.
    fn default() -> (r: DrivetrainControlState)
        ensures
            r.saved_angle is None,
    {
        DrivetrainControlState { saved_angle: None }
    }
}

/// One cycle's drivetrain request from manual control.
#[derive(Clone, Copy, Debug, PartialEq, Eq, Structural)]
pub struct DrivetrainCommand {
    /// Forward request, milli-fraction.
    pub fwd: i64,
    /// Strafe request, milli-fraction.
    pub strafe: i64,
    /// Rotation request, milli-fraction.
    pub rot: i64,
    /// Re-zero the field heading this cycle.
    pub reset_heading: bool,
    /// Point the wheels to zero instead of driving.
    pub zero_wheels: bool,
}

/// The shaped forward axis, with the game-pad stick added in drive mode.
pub open spec fn drive_axis_spec(stick: int, pad: int, slow: bool, pad_scale: int, mode:
    GamepadState) -> int {
    let end = if slow { 300int } else { 1000int };
    let base = shape_axis_spec(stick, 40, 0, end);
    if mode == GamepadState::Drive {
        let end2 = div_trunc_spec(end * (1000 - div_trunc_spec(pad_scale * 700, 1000)), 1000);
        base + shape_axis_spec(square_axis_spec(pad), 0, 0, end2)
    } else {
        base
    }
}

/// The shaped rotation axis, with the game-pad stick added in drive mode.
pub open spec fn rotate_axis_spec(stick: int, pad: int, slow: bool, pad_scale: int, mode:
    GamepadState) -> int {
    let end = if slow { 200int } else { 1000int };
    let base = shape_axis_spec(stick, 40, 0, end);
    if mode == GamepadState::Drive {
        let end2 = div_trunc_spec(end * (1000 - div_trunc_spec(pad_scale * 700, 1000)), 1000);
        base + shape_axis_spec(square_axis_spec(pad), 0, 100, end2)
    } else {
        base
    }
}

/// The rotation source chosen by the assists: podium aim, heading hold,
/// quarter-turn snap, or the stick itself, in that priority order.
pub open spec fn drivetrain_rot_spec(
    c: Controllers,
    mode: GamepadState,
    angle: int,
    offset: int,
    saved: Option<i64>,
    blue: bool,
    deadrz: int,
) -> int {
    if c.right_podium {
        let err0 = wrap_half_spec(angle - offset) + PODIUM_SHOT_ANGLE_MILLIDEG;
        let err = if blue { -err0 } else { err0 };
        turn_cmd_spec(-err)
    } else if deadrz == 0 && (c.right_hold_angle || mode == GamepadState::Drive) {
        match saved {
            Some(sa) => turn_cmd_spec(-(angle - sa)),
            None => 0,
        }
    } else if c.left_snap {
        let rel = angle - offset;
        turn_cmd_spec(-(rel - round_quarter_spec(rel)))
    } else {
        deadrz
    }
}

/// The saved heading after this cycle: captured fresh whenever the hold
/// assist is inactive.
pub open spec fn saved_angle_after_spec(
    c: Controllers,
    mode: GamepadState,
    angle: i64,
    saved: Option<i64>,
    deadrz: int,
) -> Option<i64> {
    if !(deadrz == 0 && (c.right_hold_angle || mode == GamepadState::Drive)) {
        Some(angle)
    } else {
        saved
    }
}

/// Manual drivetrain control for one cycle.
///
/// Shapes the translation and rotation axes (slow mode narrows them, drive
/// mode blends in the squared game-pad sticks), chooses the rotation source
/// among the assists, and maintains the held heading.
pub fn control_drivetrain(
    c: &Controllers,
    mode: GamepadState,
    angle_millideg: i64,
    offset_millideg: i64,
    blue: bool,
    state: &mut DrivetrainControlState,
) -> (r: DrivetrainCommand)
    requires
        c.wf(),
        -ANGLE_BOUND_MILLIDEG <= angle_millideg <= ANGLE_BOUND_MILLIDEG,
        -ANGLE_BOUND_MILLIDEG <= offset_millideg <= ANGLE_BOUND_MILLIDEG,
        old(state).saved_angle matches Some(sa)
            ==> -ANGLE_BOUND_MILLIDEG <= sa <= ANGLE_BOUND_MILLIDEG,
    ensures
        ({
            let deadrz = rotate_axis_spec(c.right_z as int, c.gp_right_x as int, c.left_slow,
                c.gp_right_trigger as int, mode);
            &&& r.fwd == drive_axis_spec(c.left_y as int, c.gp_left_y as int, c.left_slow,
                c.gp_left_trigger as int, mode)
            &&& r.strafe == drive_axis_spec(c.left_x as int, c.gp_left_x as int, c.left_slow,
                c.gp_left_trigger as int, mode)
            &&& r.rot == drivetrain_rot_spec(*c, mode, angle_millideg as int,
                offset_millideg as int, old(state).saved_angle, blue, deadrz)
            &&& final(state).saved_angle == saved_angle_after_spec(*c, mode, angle_millideg,
                old(state).saved_angle, deadrz)
            &&& r.reset_heading == c.left_reset_heading
            &&& r.zero_wheels == (mode == GamepadState::Manual && c.gp_y)
        }),
{
    let t_end = if c.left_slow { 300 } else { 1000 };
    let r_end = if c.left_slow { 200 } else { 1000 };
    let mut deadly = shape_axis(c.left_y, JOYSTICK_DEADBAND_MILLI, 0, t_end);
    let mut deadlx = shape_axis(c.left_x, JOYSTICK_DEADBAND_MILLI, 0, t_end);
    let mut deadrz = shape_axis(c.right_z, JOYSTICK_DEADBAND_MILLI, 0, r_end);

    if matches!(mode, GamepadState::Drive) {
        let t_end2 = t_end * (1000 - c.gp_left_trigger * 700 / 1000) / 1000;
        let r_end2 = r_end * (1000 - c.gp_right_trigger * 700 / 1000) / 1000;
        deadly = deadly + shape_axis(square_axis(c.gp_left_y), 0, 0, t_end2);
        deadlx = deadlx + shape_axis(square_axis(c.gp_left_x), 0, 0, t_end2);
        deadrz = deadrz + shape_axis(square_axis(c.gp_right_x), 0, 100, r_end2);
    }

    let hold_angle = deadrz == 0 && (c.right_hold_angle || matches!(mode, GamepadState::Drive));
    if !hold_angle {
        state.saved_angle = Some(angle_millideg);
    }

    let rot = if c.right_podium {
        let err0 = wrap_half(angle_millideg - offset_millideg) + PODIUM_SHOT_ANGLE_MILLIDEG;
        let err = if blue { -err0 } else { err0 };
        turn_cmd(-err)
    } else if hold_angle {
        match state.saved_angle {
            Some(sa) => turn_cmd(-(angle_millideg - sa)),
            None => 0,
        }
    } else if c.left_snap {
        let rel = angle_millideg - offset_millideg;
        let goal = round_quarter(rel);
        turn_cmd(-(rel - goal))
    } else {
        deadrz
    };

    DrivetrainCommand {
        fwd: deadly,
        strafe: deadlx,
        rot,
        reset_heading: c.left_reset_heading,
        zero_wheels: matches!(mode, GamepadState::Manual) && c.gp_y,
    }
}

/// Cross-cycle state of the shooter's teleoperated control.
#[derive(Clone, Copy, Debug, PartialEq, Eq, Structural)]
pub struct ShooterControlState {
    /// The flywheel toggle.
    pub shooting: bool,
    /// Last cycle's toggle button, for edge detection.
    pub last_loop: bool,
    /// Whether a hand-off was live last cycle.
    pub staging: bool,
    /// Whether a fire input is held this cycle.
    pub firing: bool,
    /// Whether a game-pad binding owns the flywheel.
    pub gamepad_spinning: bool,
    /// Last cycle's game-pad flywheel ownership.
    pub gamepad_spinning_last: bool,
}

impl Default for ShooterControlState {
    /// Everything off.
    fn default() -> (r: ShooterControlState)
        ensures
            r == (ShooterControlState {
                shooting: false,
                last_loop: false,
                staging: false,
                firing: false,
                gamepad_spinning: false,
                gamepad_spinning_last: false,
            }),
    {
        ShooterControlState {
            shooting: false,
            last_loop: false,
            staging: false,
            firing: false,
            gamepad_spinning: false,
            gamepad_spinning_last: false,
        }
    }
}

/// One cycle's shooter-side requests from manual control; `None` leaves a
/// device as it was.
#[derive(Clone, Copy, Debug, PartialEq, Eq, Structural)]
pub struct ShooterDecision {
    /// Flywheel command.
    pub shooter: Option<MotorCommand>,
    /// Feeder command.
    pub feeder: Option<MotorCommand>,
    /// Amp bar command.
    pub amp_bar: Option<MotorCommand>,
    /// Right rumble strength, milli, when a binding drives it.
    pub rumble: Option<i64>,
}

/// Whether a fire input is held: the operator or right-stick fire buttons,
/// or the game-pad's right bumper in any bound layer.
pub open spec fn firing_spec(c: Controllers, mode: GamepadState) -> bool {
    c.op_fire || c.right_eject || ((mode == GamepadState::Auto || mode == GamepadState::Manual
        || mode == GamepadState::Drive) && c.gp_right_bumper)
}

/// The game-pad's shooter bindings: flywheel presets on the face buttons
/// with spin-up feedback on the rumble, active in the auto and drive
/// layers.  Answers the flywheel command, amp bar command, rumble, and
/// whether the game-pad owns the flywheel afterwards.
pub open spec fn gamepad_shooter_spec(c: Controllers, mode: GamepadState, s: ShooterSensors,
    spinning: bool) -> (Option<MotorCommand>, Option<MotorCommand>, Option<i64>, bool) {
    if mode == GamepadState::Auto || mode == GamepadState::Drive {
        if c.gp_a {
            if c.right_podium {
                (Some(MotorCommand::Velocity(2080)), Some(
                    MotorCommand::Position(AMP_STOWED_MILLIREV)), Some(
                    div_trunc_spec((2080 - s.velocity_rpm) * 1000, 2000) as i64), true)
            } else {
                (Some(MotorCommand::Velocity(5500)), Some(
                    MotorCommand::Position(AMP_STOWED_MILLIREV)), Some(
                    div_trunc_spec((5500 - s.velocity_rpm) * 1000, 2000) as i64), true)
            }
        } else if c.gp_b {
            (Some(MotorCommand::Power(225)), Some(
                MotorCommand::Position(AMP_DEPLOYED_MILLIREV)), Some(
                div_trunc_spec((1000 - s.velocity_rpm) * 1000, 2000) as i64), true)
        } else if c.gp_y {
            (Some(MotorCommand::Power(400)), None, Some(
                div_trunc_spec((2500 - s.velocity_rpm) * 1000, 2000) as i64), true)
        } else if c.gp_x {
            (Some(MotorCommand::Stop), None, None, false)
        } else {
            (None, None, Some(0int as i64), spinning)
        }
    } else {
        (None, None, None, spinning)
    }
}

/// The manual shooter decision for one cycle: next control state and the
/// device requests.
pub open spec fn control_shooter_spec(c: Controllers, mode: GamepadState, s: ShooterSensors,
    st: ShooterControlState) -> (ShooterControlState, ShooterDecision) {
    let (gp_shooter, gp_amp, rumble, spinning) = gamepad_shooter_spec(c, mode, s,
        st.gamepad_spinning);
    let shooting = if c.op_shoot_toggle && !st.last_loop { !st.shooting } else { st.shooting };
    let firing = firing_spec(c, mode);
    let shooter = if shooting && !spinning {
        if s.amp_deployed_spec() && !c.op_manual {
            Some(MotorCommand::Power(225))
        } else if c.right_podium {
            Some(MotorCommand::Velocity(1917))
        } else {
            Some(MotorCommand::Power(((c.op_throttle + 1000) / 2) as i64))
        }
    } else if !spinning {
        Some(MotorCommand::Stop)
    } else {
        gp_shooter
    };
    let amp_bar = if c.op_manual {
        if c.op_amp_deploy {
            Some(MotorCommand::Power(-600int as i64))
        } else if c.op_amp_stow {
            Some(MotorCommand::Power(600))
        } else {
            Some(MotorCommand::Power(0))
        }
    } else {
        if c.op_amp_deploy {
            Some(MotorCommand::Position(AMP_DEPLOYED_MILLIREV))
        } else if c.op_amp_stow {
            Some(MotorCommand::Position(AMP_STOWED_MILLIREV))
        } else {
            gp_amp
        }
    };
    let feeder = if !st.staging {
        if firing {
            Some(MotorCommand::Power(-1000int as i64))
        } else if mode == GamepadState::Manual && c.gp_left_trigger > 0 {
            Some(MotorCommand::Power(c.gp_left_trigger))
        } else if mode == GamepadState::Manual && c.gp_left_bumper {
            if s.contains_note {
                Some(MotorCommand::Power(100))
            } else {
                Some(MotorCommand::Power(-300int as i64))
            }
        } else if c.op_feed_up {
            Some(MotorCommand::Power(500))
        } else {
            Some(MotorCommand::Stop)
        }
    } else {
        None
    };
    (ShooterControlState {
        shooting,
        last_loop: c.op_shoot_toggle,
        staging: st.staging,
        firing,
        gamepad_spinning: spinning,
        gamepad_spinning_last: st.gamepad_spinning_last,
    }, ShooterDecision { shooter, feeder, amp_bar, rumble })
}

/// Manual shooter control for one cycle: game-pad presets, the flywheel
/// toggle with throttle-set speed, amp bar moves, and the feeder sources.
pub fn control_shooter(c: &Controllers, mode: GamepadState, s: &ShooterSensors, state: &mut
    ShooterControlState) -> (r: ShooterDecision)
    requires
        c.wf(),
        -1_000_000_000 <= s.velocity_rpm <= 1_000_000_000,
    ensures
        *final(state) == control_shooter_spec(*c, mode, *s, *old(state)).0,
        r == control_shooter_spec(*c, mode, *s, *old(state)).1,
{
    let mut gp_shooter: Option<MotorCommand> = None;
    let mut gp_amp: Option<MotorCommand> = None;
    let mut rumble: Option<i64> = None;
    let mut spinning = state.gamepad_spinning;
    if matches!(mode, GamepadState::Auto | GamepadState::Drive) {
        if c.gp_a {
            if c.right_podium {
                gp_shooter = Some(MotorCommand::Velocity(2080));
                rumble = Some((2080 - s.velocity_rpm) * 1000 / 2000);
            } else {
                gp_shooter = Some(MotorCommand::Velocity(5500));
                rumble = Some((5500 - s.velocity_rpm) * 1000 / 2000);
            }
            gp_amp = Some(MotorCommand::Position(AMP_STOWED_MILLIREV));
            spinning = true;
        } else if c.gp_b {
            gp_shooter = Some(MotorCommand::Power(225));
            rumble = Some((1000 - s.velocity_rpm) * 1000 / 2000);
            gp_amp = Some(MotorCommand::Position(AMP_DEPLOYED_MILLIREV));
            spinning = true;
        } else if c.gp_y {
            gp_shooter = Some(MotorCommand::Power(400));
            rumble = Some((2500 - s.velocity_rpm) * 1000 / 2000);
            spinning = true;
        } else if c.gp_x {
            gp_shooter = Some(MotorCommand::Stop);
            spinning = false;
        } else {
            rumble = Some(0);
        }
    }

    if c.op_shoot_toggle && !state.last_loop {
        state.shooting = !state.shooting;
    }
    state.last_loop = c.op_shoot_toggle;
    state.firing = c.op_fire || c.right_eject
        || (matches!(mode, GamepadState::Auto | GamepadState::Manual | GamepadState::Drive)
            && c.gp_right_bumper);
    state.gamepad_spinning = spinning;

    let shooter = if state.shooting && !spinning {
        if s.amp_deployed() && !c.op_manual {
            Some(MotorCommand::Power(225))
        } else if c.right_podium {
            Some(MotorCommand::Velocity(1917))
        } else {
            Some(MotorCommand::Power((c.op_throttle + 1000) / 2))
        }
    } else if !spinning {
        Some(MotorCommand::Stop)
    } else {
        gp_shooter
    };

    let amp_bar = if c.op_manual {
        if c.op_amp_deploy {
            Some(MotorCommand::Power(-600))
        } else if c.op_amp_stow {
            Some(MotorCommand::Power(600))
        } else {
            Some(MotorCommand::Power(0))
        }
    } else {
        if c.op_amp_deploy {
            Some(MotorCommand::Position(AMP_DEPLOYED_MILLIREV))
        } else if c.op_amp_stow {
            Some(MotorCommand::Position(AMP_STOWED_MILLIREV))
        } else {
            gp_amp
        }
    };

    let feeder = if !state.staging {
        if state.firing {
            Some(MotorCommand::Power(-1000))
        } else if matches!(mode, GamepadState::Manual) && c.gp_left_trigger > 0 {
            Some(MotorCommand::Power(c.gp_left_trigger))
        } else if matches!(mode, GamepadState::Manual) && c.gp_left_bumper {
            if s.contains_note {
                Some(MotorCommand::Power(100))
            } else {
                Some(MotorCommand::Power(-300))
            }
        } else if c.op_feed_up {
            Some(MotorCommand::Power(500))
        } else {
            Some(MotorCommand::Stop)
        }
    } else {
        None
    };

    ShooterDecision { shooter, feeder, amp_bar, rumble }
}

/// One cycle's intake requests from manual control.
#[derive(Clone, Copy, Debug, PartialEq, Eq, Structural)]
pub struct IntakeDecision {
    /// Roller command.
    pub rollers: MotorCommand,
    /// Arm command; `None` keeps the previous position goal.
    pub actuate: Option<MotorCommand>,
}

/// The manual intake decision: roller sources in priority order, and arm
/// jogging (manual) or preset angles (otherwise).
pub open spec fn control_intake_spec(c: Controllers, mode: GamepadState) -> IntakeDecision {
    let pad = mode == GamepadState::Manual || mode == GamepadState::Auto;
    let rollers = if pad && c.gp_left_trigger > 0 {
        MotorCommand::Power(c.gp_left_trigger)
    } else if c.op_grab && c.op_manual {
        MotorCommand::Power(1000)
    } else if (c.op_stage && c.op_manual) || c.op_fire || c.right_eject
        || (pad && c.gp_right_bumper)
        || (mode == GamepadState::Manual && c.gp_left_bumper) {
        MotorCommand::Power(-1000int as i64)
    } else {
        MotorCommand::Stop
    };
    let actuate = if c.op_manual || mode == GamepadState::Manual {
        if c.op_up || c.gp_left_stick {
            Some(MotorCommand::Power(300))
        } else if c.op_down || c.gp_right_stick {
            Some(MotorCommand::Power(-300int as i64))
        } else {
            Some(MotorCommand::Stop)
        }
    } else {
        if c.op_up || (mode == GamepadState::Auto && c.gp_right_stick) {
            Some(MotorCommand::Position(INTAKE_UP_GOAL_MILLIDEG))
        } else if c.op_down || (mode == GamepadState::Auto && c.gp_left_stick) {
            Some(MotorCommand::Position(INTAKE_DOWN_GOAL_MILLIDEG))
        } else {
            None
        }
    };
    IntakeDecision { rollers, actuate }
}

/// Manual intake control for one cycle.
pub fn control_intake(c: &Controllers, mode: GamepadState) -> (r: IntakeDecision)
    requires
        c.wf(),
    ensures
        r == control_intake_spec(*c, mode),
{
    let pad = matches!(mode, GamepadState::Manual | GamepadState::Auto);
    let rollers = if pad && c.gp_left_trigger > 0 {
        MotorCommand::Power(c.gp_left_trigger)
    } else if c.op_grab && c.op_manual {
        MotorCommand::Power(1000)
    } else if (c.op_stage && c.op_manual) || c.op_fire || c.right_eject
        || (pad && c.gp_right_bumper)
        || (matches!(mode, GamepadState::Manual) && c.gp_left_bumper) {
        MotorCommand::Power(-1000)
    } else {
        MotorCommand::Stop
    };
    let actuate = if c.op_manual || matches!(mode, GamepadState::Manual) {
        if c.op_up || c.gp_left_stick {
            Some(MotorCommand::Power(300))
        } else if c.op_down || c.gp_right_stick {
            Some(MotorCommand::Power(-300))
        } else {
            Some(MotorCommand::Stop)
        }
    } else {
        if c.op_up || (matches!(mode, GamepadState::Auto) && c.gp_right_stick) {
            Some(MotorCommand::Position(INTAKE_UP_GOAL_MILLIDEG))
        } else if c.op_down || (matches!(mode, GamepadState::Auto) && c.gp_left_stick) {
            Some(MotorCommand::Position(INTAKE_DOWN_GOAL_MILLIDEG))
        } else {
            None
        }
    };
    IntakeDecision { rollers, actuate }
}

/// One cycle's climber requests; `None` leaves that hook's motor as it was.
#[derive(Clone, Copy, Debug, PartialEq, Eq, Structural)]
pub struct ClimberDecision {
    /// Left hook motor command.
    pub left: Option<MotorCommand>,
    /// Right hook motor command.
    pub right: Option<MotorCommand>,
}

/// The manual climber decision: both hooks together on the drive stick,
/// individual hooks from the operator or the climb layer, stopped when
/// nothing is held.
pub open spec fn control_climber_spec(c: Controllers, mode: GamepadState) -> ClimberDecision {
    if c.left_climb_both {
        ClimberDecision {
            left: Some(MotorCommand::Power(-1000int as i64)),
            right: Some(MotorCommand::Power(1000)),
        }
    } else {
        let climb = mode == GamepadState::Climb;
        let left = if climb && c.gp_left_trigger > 0 {
            Some(MotorCommand::Power(-c.gp_left_trigger as int as i64))
        } else if c.op_climb_left_down {
            Some(MotorCommand::Power(-1000int as i64))
        } else if c.op_climb_left_up || (climb && c.gp_left_bumper) {
            Some(MotorCommand::Power(1000))
        } else {
            None
        };
        let right = if c.op_climb_right_up {
            Some(MotorCommand::Power(1000))
        } else if c.op_climb_right_down || (climb && c.gp_right_bumper) {
            Some(MotorCommand::Power(-1000int as i64))
        } else if climb && c.gp_right_trigger > 0 {
            Some(MotorCommand::Power(-c.gp_right_trigger as int as i64))
        } else {
            None
        };
        if left is None && right is None {
            ClimberDecision { left: Some(MotorCommand::Stop), right: Some(MotorCommand::Stop) }
        } else {
            ClimberDecision { left, right }
        }
    }
}

/// Manual climber control for one cycle.
pub fn control_climber(c: &Controllers, mode: GamepadState) -> (r: ClimberDecision)
    requires
        c.wf(),
    ensures
        r == control_climber_spec(*c, mode),
{
    if c.left_climb_both {
        return ClimberDecision {
            left: Some(MotorCommand::Power(-1000)),
            right: Some(MotorCommand::Power(1000)),
        };
    }
    let climb = matches!(mode, GamepadState::Climb);
    let left = if climb && c.gp_left_trigger > 0 {
        Some(MotorCommand::Power(-c.gp_left_trigger))
    } else if c.op_climb_left_down {
        Some(MotorCommand::Power(-1000))
    } else if c.op_climb_left_up || (climb && c.gp_left_bumper) {
        Some(MotorCommand::Power(1000))
    } else {
        None
    };
    let right = if c.op_climb_right_up {
        Some(MotorCommand::Power(1000))
    } else if c.op_climb_right_down || (climb && c.gp_right_bumper) {
        Some(MotorCommand::Power(-1000))
    } else if climb && c.gp_right_trigger > 0 {
        Some(MotorCommand::Power(-c.gp_right_trigger))
    } else {
        None
    };
    if left.is_none() && right.is_none() {
        ClimberDecision { left: Some(MotorCommand::Stop), right: Some(MotorCommand::Stop) }
    } else {
        ClimberDecision { left, right }
    }
}

/// One cycle of the grab registry: start a handle only when none exists
/// and the trigger conditions hold, cancel on release or fire, then step
/// the live handle and drop it on completion.  Answers the registry after
/// the cycle and the roller command if a handle ran.
pub open spec fn grab_cycle_spec(g: Option<GrabAction>, c: Controllers, firing: bool, s:
    IntakeSensors) -> (Option<GrabAction>, Option<MotorCommand>) {
    let start = c.op_grab && g is None && !c.op_stage && !c.op_manual;
    let cancel = !c.op_grab || firing;
    let post = if start {
        Some(GrabAction::WaitRunning)
    } else if cancel {
        None
    } else {
        g
    };
    match post {
        None => (None, None),
        Some(a) => {
            let (a2, cmd, done) = grab_step_spec(a, s);
            (if done { None } else { Some(a2) }, Some(cmd))
        },
    }
}

/// A live grab handle is never replaced: after any cycle the registry
/// holds either nothing or exactly the stepped old handle, so starting
/// "grab" again while one is live cannot create a second handle; and on
/// cancel the registry is empty, so the rollers revert to the manual
/// command on the next cycle.
pub proof fn lemma_grab_mutual_exclusion(g: GrabAction, c: Controllers, firing: bool, s:
    IntakeSensors)
    ensures
        grab_cycle_spec(Some(g), c, firing, s).0 is None
            || grab_cycle_spec(Some(g), c, firing, s).0 == Some(grab_step_spec(g, s).0),
        !c.op_grab || firing ==> grab_cycle_spec(Some(g), c, firing, s).0 is None,
{
}

/// One cycle of the hand-off registry, analogous to the grab registry; a
/// hand-off refuses to start while the shooter already holds a note.
pub open spec fn stage_cycle_spec(stg: Option<StageAction>, c: Controllers, mode: GamepadState,
    firing: bool, i: IntakeSensors, sh: ShooterSensors, dt: u64) -> (Option<StageAction>,
    Option<StageCommands>) {
    let start = (c.op_stage || (mode == GamepadState::Auto && c.gp_right_trigger > 300))
        && !c.op_manual && stg is None && !sh.contains_note;
    let cancel = (!c.op_stage && mode != GamepadState::Auto) || firing
        || (mode == GamepadState::Auto && c.gp_right_trigger < 200);
    let post = if start {
        Some(StageAction {
            phase: crate::actions::StagePhase::Raise,
            lift: crate::actions::raise_lift_spec(clamp_arm_spec(i.position_millideg)),
        })
    } else if cancel {
        None
    } else {
        stg
    };
    match post {
        None => (None, None),
        Some(a) => {
            let (a2, cmds, done) = stage_step_spec(a, i, sh, dt);
            (if done { None } else { Some(a2) }, Some(cmds))
        },
    }
}

/// One cycle of the full-pickup registry: it may also restart after a
/// crash latch, and starting clears the latch whether or not the previous
/// attempt finished.
pub open spec fn grab_full_cycle_spec(gf: Option<GrabFullAction>, crashed: bool, c:
    Controllers, mode: GamepadState, firing: bool, i: IntakeSensors, sh: ShooterSensors, dt:
    u64) -> (Option<GrabFullAction>, bool, Option<StageCommands>) {
    let start = (c.op_grab_full || ((mode == GamepadState::Auto || mode == GamepadState::Drive)
        && c.gp_left_bumper)) && (gf is None || crashed) && !c.op_stage && !c.op_manual;
    let cancel = (!c.op_grab_full && mode != GamepadState::Auto) || firing
        || (mode == GamepadState::Auto && !c.gp_left_bumper);
    let post = if start {
        Some(GrabFullAction::Lower(crate::actions::lower_lift_spec(
            clamp_arm_spec(i.position_millideg))))
    } else if cancel {
        None
    } else {
        gf
    };
    let crashed2 = if start { false } else { crashed };
    match post {
        None => (None, crashed2, None),
        Some(a) => {
            let (a2, cmds, done) = grab_full_step_spec(a, i, sh, dt);
            (if done { None } else { Some(a2) }, crashed2, Some(cmds))
        },
    }
}

/// One cycle of the zeroing registry: started by its button, never
/// cancelled, dropped when the zero is captured.
pub open spec fn zero_cycle_spec(z: Option<ZeroAction>, start: bool, i: IntakeSensors, dt: u64)
    -> (Option<ZeroAction>, Option<MotorCommand>, Option<i64>) {
    let post = if z is None && start { Some(ZeroAction::SeekLimit) } else { z };
    match post {
        None => (None, None, None),
        Some(a) => {
            let (a2, cmd, capture) = zero_step_spec(a, i, dt);
            (if capture is Some { None } else { Some(a2) }, Some(cmd), capture)
        },
    }
}

/// Run one cycle of the grab registry.
fn run_grab(g: &mut Option<GrabAction>, c: &Controllers, firing: bool, s: &IntakeSensors) -> (r:
    Option<MotorCommand>)
    ensures
        *final(g) == grab_cycle_spec(*old(g), *c, firing, *s).0,
        r == grab_cycle_spec(*old(g), *c, firing, *s).1,
{
    if c.op_grab && g.is_none() && !c.op_stage && !c.op_manual {
        *g = Some(GrabAction::new());
    } else if !c.op_grab || firing {
        *g = None;
    }
    let taken = g.take();
    if let Some(mut a) = taken {
        let (cmd, done) = a.step(s);
        if !done {
            *g = Some(a);
        }
        Some(cmd)
    } else {
        None
    }
}

/// Run one cycle of the hand-off registry.
fn run_stage(stg: &mut Option<StageAction>, c: &Controllers, mode: GamepadState, firing: bool,
    i: &IntakeSensors, sh: &ShooterSensors, dt_ms: u64) -> (r: Option<StageCommands>)
    requires
        (*old(stg)) matches Some(a) ==> a.wf(),
        dt_ms <= 1000,
    ensures
        *final(stg) == stage_cycle_spec(*old(stg), *c, mode, firing, *i, *sh, dt_ms).0,
        r == stage_cycle_spec(*old(stg), *c, mode, firing, *i, *sh, dt_ms).1,
        (*final(stg)) matches Some(a) ==> a.wf(),
{
    let arm = if i.position_millideg > ARM_ANGLE_BOUND_MILLIDEG {
        ARM_ANGLE_BOUND_MILLIDEG
    } else if i.position_millideg < -ARM_ANGLE_BOUND_MILLIDEG {
        -ARM_ANGLE_BOUND_MILLIDEG
    } else {
        i.position_millideg
    };
    if (c.op_stage || (matches!(mode, GamepadState::Auto) && c.gp_right_trigger > 300))
        && !c.op_manual && stg.is_none() && !sh.contains_note
    {
        *stg = Some(StageAction::new(arm));
    } else if (!c.op_stage && !matches!(mode, GamepadState::Auto)) || firing
        || (matches!(mode, GamepadState::Auto) && c.gp_right_trigger < 200)
    {
        *stg = None;
    }
    let taken = stg.take();
    if let Some(mut a) = taken {
        let (cmds, done) = a.step(i, sh, dt_ms);
        if !done {
            *stg = Some(a);
        }
        Some(cmds)
    } else {
        None
    }
}

/// Run one cycle of the full-pickup registry.
fn run_grab_full(gf: &mut Option<GrabFullAction>, crashed: &mut bool, c: &Controllers, mode:
    GamepadState, firing: bool, i: &IntakeSensors, sh: &ShooterSensors, dt_ms: u64) -> (r:
    Option<StageCommands>)
    requires
        (*old(gf)) matches Some(a) ==> a.wf(),
        dt_ms <= 1000,
    ensures
        *final(gf) == grab_full_cycle_spec(*old(gf), *old(crashed), *c, mode, firing, *i, *sh,
            dt_ms).0,
        *final(crashed) == grab_full_cycle_spec(*old(gf), *old(crashed), *c, mode, firing, *i,
            *sh, dt_ms).1,
        r == grab_full_cycle_spec(*old(gf), *old(crashed), *c, mode, firing, *i, *sh,
            dt_ms).2,
        (*final(gf)) matches Some(a) ==> a.wf(),
{
    let arm = if i.position_millideg > ARM_ANGLE_BOUND_MILLIDEG {
        ARM_ANGLE_BOUND_MILLIDEG
    } else if i.position_millideg < -ARM_ANGLE_BOUND_MILLIDEG {
        -ARM_ANGLE_BOUND_MILLIDEG
    } else {
        i.position_millideg
    };
    if (c.op_grab_full
        || (matches!(mode, GamepadState::Auto | GamepadState::Drive) && c.gp_left_bumper))
        && (gf.is_none() || *crashed) && !c.op_stage && !c.op_manual
    {
        *crashed = false;
        *gf = Some(GrabFullAction::new(arm));
    } else if (!c.op_grab_full && !matches!(mode, GamepadState::Auto)) || firing
        || (matches!(mode, GamepadState::Auto) && !c.gp_left_bumper)
    {
        *gf = None;
    }
    let taken = gf.take();
    if let Some(mut a) = taken {
        let (cmds, done) = a.step(i, sh, dt_ms);
        if !done {
            *gf = Some(a);
        }
        Some(cmds)
    } else {
        None
    }
}

/// Run one cycle of the zeroing registry.
fn run_zero(z: &mut Option<ZeroAction>, start: bool, i: &IntakeSensors, dt_ms: u64) -> (r: (
    Option<MotorCommand>, Option<i64>))
    requires
        -ARM_ANGLE_BOUND_MILLIDEG <= i.raw_position_millideg <= ARM_ANGLE_BOUND_MILLIDEG,
    ensures
        *final(z) == zero_cycle_spec(*old(z), start, *i, dt_ms).0,
        r.0 == zero_cycle_spec(*old(z), start, *i, dt_ms).1,
        r.1 == zero_cycle_spec(*old(z), start, *i, dt_ms).2,
{
    if z.is_none() && start {
        *z = Some(ZeroAction::new());
    }
    let taken = z.take();
    if let Some(mut a) = taken {
        let (cmd, capture) = a.step(i, dt_ms);
        if capture.is_none() {
            *z = Some(a);
        }
        (Some(cmd), capture)
    } else {
        (None, None)
    }
}

/// The robot's coordination state: manual-control state, the game-pad
/// layer, and at most one live handle per action.
pub struct Ferris {
    /// The active game-pad binding layer.
    pub gamepad_state: GamepadState,
    /// Drivetrain manual-control state.
    pub drivetrain_state: DrivetrainControlState,
    /// Shooter manual-control state.
    pub shooter_state: ShooterControlState,
    /// The live grab handle, if any.
    pub grab: Option<GrabAction>,
    /// The live hand-off handle, if any.
    pub stage: Option<StageAction>,
    /// The live full-pickup handle, if any.
    pub grab_full: Option<GrabFullAction>,
    /// Latch allowing a full pickup to restart after a failed attempt.
    pub grab_full_crashed: bool,
    /// The live zeroing handle, if any.
    pub zero: Option<ZeroAction>,
}

/// Every cycle's output: one command (or explicit "leave alone") per
/// device, plus the flags the hardware layer acts on.
#[derive(Clone, Copy, Debug, PartialEq, Eq, Structural)]
pub struct RobotCommand {
    /// The drivetrain request.
    pub drivetrain: DrivetrainCommand,
    /// Intake roller command.
    pub intake_rollers: MotorCommand,
    /// Intake arm command; `None` keeps the previous goal.
    pub intake_actuate: Option<MotorCommand>,
    /// Flywheel command; `None` keeps the previous output.
    pub shooter: Option<MotorCommand>,
    /// Feeder command; `None` keeps the previous output.
    pub feeder: Option<MotorCommand>,
    /// Amp bar command; `None` keeps the previous output.
    pub amp_bar: Option<MotorCommand>,
    /// Right rumble strength, when a binding drives it.
    pub rumble: Option<i64>,
    /// Left climber hook command; `None` keeps the previous output.
    pub climber_left: Option<MotorCommand>,
    /// Right climber hook command; `None` keeps the previous output.
    pub climber_right: Option<MotorCommand>,
    /// A freshly captured intake zero offset, millidegrees.
    pub zero_capture: Option<i64>,
}

impl Ferris {
    /// All live handles are within the ramp arithmetic's range.
    pub open spec fn wf(self) -> bool {
        &&& (self.stage matches Some(a) ==> a.wf())
        &&& (self.grab_full matches Some(a) ==> a.wf())
        &&& (self.drivetrain_state.saved_angle matches Some(sa)
            ==> -ANGLE_BOUND_MILLIDEG <= sa <= ANGLE_BOUND_MILLIDEG)
    }

    /// A robot at rest: no live actions, defaults everywhere.
    pub fn new() -> (r: Ferris)
        ensures
            r.wf(),
            r.gamepad_state == GamepadState::Auto,
            r.grab is None && r.stage is None && r.grab_full is None && r.zero is None,
            !r.grab_full_crashed,
    {
        Ferris {
            gamepad_state: GamepadState::Auto,
            drivetrain_state: DrivetrainControlState { saved_angle: None },
            shooter_state: ShooterControlState {
                shooting: false,
                last_loop: false,
                staging: false,
                firing: false,
                gamepad_spinning: false,
                gamepad_spinning_last: false,
            },
            grab: None,
            stage: None,
            grab_full: None,
            grab_full_crashed: false,
            zero: None,
        }
    }

    /// One teleoperated cycle: manual control plus action arbitration.
    ///
    /// Computes the manual command for every device, applies the game-pad
    /// layer change, starts and cancels action handles by the arbitration
    /// rules, steps the live handles with this cycle's snapshot, and
    /// merges: the hand-off claims rollers, arm and feeder; the full
    /// pickup the same; the grab only the rollers; the zeroing sequence
    /// only the arm; everything unclaimed follows manual control.
    #[verifier::rlimit(100)]
    pub fn container(
        &mut self,
        c: &Controllers,
        intake_s: &IntakeSensors,
        shooter_s: &ShooterSensors,
        angle_millideg: i64,
        offset_millideg: i64,
        blue: bool,
        dt_ms: u64,
    ) -> (r: RobotCommand)
        requires
            old(self).wf(),
            c.wf(),
            -ANGLE_BOUND_MILLIDEG <= angle_millideg <= ANGLE_BOUND_MILLIDEG,
            -ANGLE_BOUND_MILLIDEG <= offset_millideg <= ANGLE_BOUND_MILLIDEG,
            -1_000_000_000 <= shooter_s.velocity_rpm <= 1_000_000_000,
            -ARM_ANGLE_BOUND_MILLIDEG <= intake_s.raw_position_millideg
                <= ARM_ANGLE_BOUND_MILLIDEG,
            dt_ms <= 1000,
        ensures
            final(self).wf(),
            ({
                let mode_old = old(self).gamepad_state;
                let mode_new = next_gamepad_state_spec(c.gp_dpad, mode_old);
                let shooter_result = control_shooter_spec(*c, mode_old, *shooter_s,
                    old(self).shooter_state);
                let firing = shooter_result.0.firing;
                let grab_r = grab_cycle_spec(old(self).grab, *c, firing, *intake_s);
                let stage_r = stage_cycle_spec(old(self).stage, *c, mode_new, firing,
                    *intake_s, *shooter_s, dt_ms);
                let gf_r = grab_full_cycle_spec(old(self).grab_full,
                    old(self).grab_full_crashed, *c, mode_new, firing, *intake_s, *shooter_s,
                    dt_ms);
                let zero_r = zero_cycle_spec(old(self).zero,
                    c.op_zero || (mode_new == GamepadState::Climb && c.gp_a), *intake_s,
                    dt_ms);
                let manual_intake = control_intake_spec(*c, mode_old);
                &&& final(self).gamepad_state == mode_new
                &&& final(self).grab == grab_r.0
                &&& final(self).stage == stage_r.0
                &&& final(self).grab_full == gf_r.0
                &&& final(self).grab_full_crashed == gf_r.1
                &&& final(self).zero == zero_r.0
                &&& final(self).shooter_state == (ShooterControlState {
                    staging: old(self).stage is Some,
                    ..shooter_result.0
                })
                &&& r.shooter == shooter_result.1.shooter
                &&& r.amp_bar == shooter_result.1.amp_bar
                &&& r.rumble == shooter_result.1.rumble
                &&& r.intake_rollers == (match stage_r.1 {
                    Some(sc) => sc.rollers,
                    None => match gf_r.2 {
                        Some(gc) => gc.rollers,
                        None => match grab_r.1 {
                            Some(cmd) => cmd,
                            None => manual_intake.rollers,
                        },
                    },
                })
                &&& r.intake_actuate == (match stage_r.1 {
                    Some(sc) => Some(sc.actuate),
                    None => match gf_r.2 {
                        Some(gc) => Some(gc.actuate),
                        None => match zero_r.1 {
                            Some(cmd) => Some(cmd),
                            None => manual_intake.actuate,
                        },
                    },
                })
                &&& r.feeder == (match stage_r.1 {
                    Some(sc) => Some(sc.feeder),
                    None => match gf_r.2 {
                        Some(gc) => Some(gc.feeder),
                        None => shooter_result.1.feeder,
                    },
                })
                &&& r.climber_left == control_climber_spec(*c, mode_old).left
                &&& r.climber_right == control_climber_spec(*c, mode_old).right
                &&& r.zero_capture == zero_r.2
                &&& ({
                    let deadrz = rotate_axis_spec(c.right_z as int, c.gp_right_x as int,
                        c.left_slow, c.gp_right_trigger as int, mode_old);
                    &&& r.drivetrain.fwd == drive_axis_spec(c.left_y as int,
                        c.gp_left_y as int, c.left_slow, c.gp_left_trigger as int, mode_old)
                    &&& r.drivetrain.strafe == drive_axis_spec(c.left_x as int,
                        c.gp_left_x as int, c.left_slow, c.gp_left_trigger as int, mode_old)
                    &&& r.drivetrain.rot == drivetrain_rot_spec(*c, mode_old,
                        angle_millideg as int, offset_millideg as int,
                        old(self).drivetrain_state.saved_angle, blue, deadrz)
                    &&& final(self).drivetrain_state.saved_angle == saved_angle_after_spec(
                        *c, mode_old, angle_millideg, old(self).drivetrain_state.saved_angle,
                        deadrz)
                    &&& r.drivetrain.reset_heading == c.left_reset_heading
                    &&& r.drivetrain.zero_wheels == (mode_old == GamepadState::Manual
                        && c.gp_y)
                })
            }),
    {
        let mode_old = self.gamepad_state;

        let drivetrain = control_drivetrain(c, mode_old, angle_millideg, offset_millideg, blue,
            &mut self.drivetrain_state);
        let manual_intake = control_intake(c, mode_old);
        let shooter_decision = control_shooter(c, mode_old, shooter_s, &mut self.shooter_state);
        let climber = control_climber(c, mode_old);
        let firing = self.shooter_state.firing;

        let mode_new = match c.gp_dpad {
            DpadDirection::Left => GamepadState::Manual,
            DpadDirection::Up => GamepadState::Climb,
            DpadDirection::Down => GamepadState::Auto,
            DpadDirection::Right => GamepadState::Drive,
            DpadDirection::Center => mode_old,
        };
        self.gamepad_state = mode_new;

        let grab_cmd = run_grab(&mut self.grab, c, firing, intake_s);
        let gf_cmds = run_grab_full(&mut self.grab_full, &mut self.grab_full_crashed, c,
            mode_new, firing, intake_s, shooter_s, dt_ms);

        // The staging flag records whether a hand-off was live entering
        // this cycle; the shooter decision above already used last
        // cycle's value.
        let was_staging = self.stage.is_some();
        let stage_cmds = run_stage(&mut self.stage, c, mode_new, firing, intake_s, shooter_s,
            dt_ms);
        self.shooter_state.staging = was_staging;

        let (zero_cmd, zero_capture) = run_zero(&mut self.zero,
            c.op_zero || (matches!(mode_new, GamepadState::Climb) && c.gp_a), intake_s,
            dt_ms);

        // Merge: claimed devices follow their action, the rest manual.
        let intake_rollers = match stage_cmds {
            Some(sc) => sc.rollers,
            None => match gf_cmds {
                Some(gc) => gc.rollers,
                None => match grab_cmd {
                    Some(cmd) => cmd,
                    None => manual_intake.rollers,
                },
            },
        };
        let intake_actuate = match stage_cmds {
            Some(sc) => Some(sc.actuate),
            None => match gf_cmds {
                Some(gc) => Some(gc.actuate),
                None => match zero_cmd {
                    Some(cmd) => Some(cmd),
                    None => manual_intake.actuate,
                },
            },
        };
        let feeder = match stage_cmds {
            Some(sc) => Some(sc.feeder),
            None => match gf_cmds {
                Some(gc) => Some(gc.feeder),
                None => shooter_decision.feeder,
            },
        };

        RobotCommand {
            drivetrain,
            intake_rollers,
            intake_actuate,
            shooter: shooter_decision.shooter,
            feeder,
            amp_bar: shooter_decision.amp_bar,
            rumble: shooter_decision.rumble,
            climber_left: climber.left,
            climber_right: climber.right,
            zero_capture,
        }
    }

    /// Cancel every live action, as on a mode transition.
    pub fn cancel_actions(&mut self)
        requires
            old(self).wf(),
        ensures
            final(self).grab is None,
            final(self).stage is None,
            final(self).grab_full is None,
            final(self).gamepad_state == old(self).gamepad_state,
            final(self).shooter_state == old(self).shooter_state,
            final(self).drivetrain_state == old(self).drivetrain_state,
            final(self).zero == old(self).zero,
            final(self).grab_full_crashed == old(self).grab_full_crashed,
            final(self).wf(),
    {
        self.grab = None;
        self.stage = None;
        self.grab_full = None;
    }
}

/// Stop commands for every device at once, as issued when the robot is
/// disabled.
pub fn stop_all() -> (r: RobotCommand)
    ensures
        r.intake_rollers == MotorCommand::Stop,
        r.intake_actuate == Some(MotorCommand::Stop),
        r.shooter == Some(MotorCommand::Stop),
        r.feeder == Some(MotorCommand::Stop),
        r.climber_left == Some(MotorCommand::Stop),
        r.climber_right == Some(MotorCommand::Stop),
        r.drivetrain.fwd == 0 && r.drivetrain.strafe == 0 && r.drivetrain.rot == 0,
{
    RobotCommand {
        drivetrain: DrivetrainCommand {
            fwd: 0,
            strafe: 0,
            rot: 0,
            reset_heading: false,
            zero_wheels: false,
        },
        intake_rollers: MotorCommand::Stop,
        intake_actuate: Some(MotorCommand::Stop),
        shooter: Some(MotorCommand::Stop),
        feeder: Some(MotorCommand::Stop),
        amp_bar: None,
        rumble: None,
        climber_left: Some(MotorCommand::Stop),
        climber_right: Some(MotorCommand::Stop),
        zero_capture: None,
    }
}

} // verus!
