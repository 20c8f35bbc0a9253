//! The multi-step mechanical actions, as explicit cooperative state
//! machines.
//!
//! Each action holds its own state and is stepped once per scheduler cycle
//! with the cycle's sensor snapshot and elapsed time; it answers with the
//! motor commands to apply this cycle and whether it has completed.  An
//! action never waits by itself: cancelling one is simply ceasing to step
//! it, after which the arbitration layer hands its devices back to manual
//! control.  Motor values are milli-fraction, currents milliamps,
//! velocities RPM, angles millidegrees, times milliseconds.

use vstd::prelude::*;

verus! {

/// Roller current above which a captured game piece is inferred, milliamps.
pub const INTAKE_OCCUPIED_CURRENT_MILLIAMP: i64 = 20_000;

/// Roller velocity below which (with high current) a stall is inferred, RPM.
pub const INTAKE_OCCUPIED_VELOCITY_RPM: i64 = 2_000;

/// Roller velocity above which the rollers count as freely spinning, RPM.
pub const INTAKE_FREE_VELOCITY_RPM: i64 = 2_000;

/// Arm angle below which the intake counts as lowered, millidegrees.
pub const INTAKE_DOWN_THRESHOLD_MILLIDEG: i64 = -67_000;

/// Arm angle above which the intake counts as raised, millidegrees.
pub const INTAKE_UP_THRESHOLD_MILLIDEG: i64 = 4_700;

/// Arm angle goal when lowering, millidegrees.
pub const INTAKE_DOWN_GOAL_MILLIDEG: i64 = -70_000;

/// Arm angle goal when raising, millidegrees.
pub const INTAKE_UP_GOAL_MILLIDEG: i64 = 7_600;

/// Arm angle at the limit switch, millidegrees.
pub const INTAKE_ZERO_POINT_MILLIDEG: i64 = 3_000;

/// Flywheel speed that must be reached before firing, RPM.
pub const SHOOT_SPINUP_RPM: i64 = 5_400;

/// Flywheel sag that indicates the note has left, RPM.
pub const SHOOT_SAG_RPM: i64 = 5_300;

/// Flywheel speed for the gentler feed shot, RPM.
pub const FEED_SHOT_SPINUP_RPM: i64 = 5_000;

/// Amp bar stowed position, milli-revolutions.
pub const AMP_STOWED_MILLIREV: i64 = -3_000;

/// Amp bar deployed position, milli-revolutions.
pub const AMP_DEPLOYED_MILLIREV: i64 = -30_400;

/// Largest arm angle the ramp arithmetic accepts, millidegrees.
pub const ARM_ANGLE_BOUND_MILLIDEG: i64 = 10_000_000;

/// One cycle's command for one motor.
#[derive(Clone, Copy, Debug, PartialEq, Eq, Structural)]
pub enum MotorCommand {
    /// Cut output.
    Stop,
    /// Open-loop output, milli-fraction.
    Power(i64),
    /// Position-mode goal (millidegrees or milli-revolutions).
    Position(i64),
    /// Velocity-mode goal, RPM.
    Velocity(i64),
}

/// One cycle's snapshot of the intake's sensors.
#[derive(Clone, Copy, Debug, PartialEq, Eq, Structural)]
pub struct IntakeSensors {
    /// Roller motor current, milliamps.
    pub roller_current_milliamp: i64,
    /// Roller velocity, RPM.
    pub roller_velocity_rpm: i64,
    /// Arm limit switch (active when pressed).
    pub at_limit: bool,
    /// Cam limit switch (active when pressed).
    pub cam_limit: bool,
    /// Arm angle relative to the captured zero, millidegrees.
    pub position_millideg: i64,
    /// Raw arm motor angle before zeroing, millidegrees.
    pub raw_position_millideg: i64,
}

impl IntakeSensors {
    /// A blocked roller: high current at low speed — a note is held.
    pub open spec fn stalled_spec(self) -> bool {
        self.roller_current_milliamp > INTAKE_OCCUPIED_CURRENT_MILLIAMP
            && self.roller_velocity_rpm < INTAKE_OCCUPIED_VELOCITY_RPM
    }

    /// A blocked roller: high current at low speed — a note is held.
    pub fn stalled(&self) -> (r: bool)
        ensures
            r == self.stalled_spec(),
    {
        self.roller_current_milliamp > INTAKE_OCCUPIED_CURRENT_MILLIAMP
            && self.roller_velocity_rpm < INTAKE_OCCUPIED_VELOCITY_RPM
    }

    /// Finished accelerating: low current at high speed.
    pub open spec fn running_spec(self) -> bool {
        self.roller_current_milliamp < INTAKE_OCCUPIED_CURRENT_MILLIAMP
            && self.roller_velocity_rpm > INTAKE_FREE_VELOCITY_RPM
    }

    /// Finished accelerating: low current at high speed.
    pub fn running(&self) -> (r: bool)
        ensures
            r == self.running_spec(),
    {
        self.roller_current_milliamp < INTAKE_OCCUPIED_CURRENT_MILLIAMP
            && self.roller_velocity_rpm > INTAKE_FREE_VELOCITY_RPM
    }
}

/// One cycle's snapshot of the shooter's sensors.
#[derive(Clone, Copy, Debug, PartialEq, Eq, Structural)]
pub struct ShooterSensors {
    /// The slower flywheel's speed magnitude, RPM.
    pub velocity_rpm: i64,
    /// Beam-break: a note sits in the feeder.
    pub contains_note: bool,
    /// Amp bar position, milli-revolutions.
    pub amp_position_millirev: i64,
}

impl ShooterSensors {
    /// Whether the amp bar is closer to deployed than stowed.
    pub open spec fn amp_deployed_spec(self) -> bool {
        self.amp_position_millirev < (AMP_DEPLOYED_MILLIREV + AMP_STOWED_MILLIREV) / 2
    }

    /// Whether the amp bar is closer to deployed than stowed.
    pub fn amp_deployed(&self) -> (r: bool)
        ensures
            r == self.amp_deployed_spec(),
    {
        self.amp_position_millirev < (AMP_DEPLOYED_MILLIREV + AMP_STOWED_MILLIREV) / 2
    }
}

/// Subtract elapsed time from a countdown, stopping at zero.
pub open spec fn countdown_spec(remaining: u64, dt: u64) -> u64 {
    if dt >= remaining { 0u64 } else { (remaining - dt) as u64 }
}

/// The rate limiter that walks the arm's position goal toward a target at a
/// bounded angular rate, so position-mode moves ramp instead of stepping.
#[derive(Clone, Copy, Debug, PartialEq, Eq, Structural)]
pub struct TrapezoidProfile {
    /// The goal commanded last cycle, millidegrees.
    pub current_millideg: i64,
}

/// The profile's next commanded angle: the goal, but never further from the
/// last command than the ramp rate allows in `dt` (six times the base rate,
/// in millidegrees: `dt * 870`).
pub open spec fn trapezoid_next_spec(current: int, goal: int, dt: int) -> int {
    let max_step = dt * 870;
    if goal > current {
        if goal < current + max_step { goal } else { current + max_step }
    } else {
        if goal > current - max_step { goal } else { current - max_step }
    }
}

impl TrapezoidProfile {
    /// Within the ramp arithmetic's range.
    pub open spec fn wf(self) -> bool {
        -ARM_ANGLE_BOUND_MILLIDEG <= self.current_millideg <= ARM_ANGLE_BOUND_MILLIDEG
    }

    /// A profile starting from an angle.
    pub fn new(start_millideg: i64) -> (r: TrapezoidProfile)
        requires
            -ARM_ANGLE_BOUND_MILLIDEG <= start_millideg <= ARM_ANGLE_BOUND_MILLIDEG,
        ensures
            r.wf(),
            r.current_millideg == start_millideg,
    {
        TrapezoidProfile { current_millideg: start_millideg }
    }

    /// Advance the ramp one cycle toward `goal`; answers the angle to
    /// command and whether the goal had already been reached before this
    /// cycle.
    pub fn step(&mut self, goal_millideg: i64, dt_ms: u64) -> (r: (i64, bool))
        requires
            old(self).wf(),
            -ARM_ANGLE_BOUND_MILLIDEG <= goal_millideg <= ARM_ANGLE_BOUND_MILLIDEG,
            dt_ms <= 1000,
        ensures
            final(self).wf(),
            r.0 == trapezoid_next_spec(old(self).current_millideg as int, goal_millideg as int,
                dt_ms as int),
            final(self).current_millideg == r.0,
            r.1 == (goal_millideg == old(self).current_millideg),
    {
        let current = self.current_millideg;
        let max_step = (dt_ms as i64) * 870;
        let next = if goal_millideg > current {
            if goal_millideg < current + max_step { goal_millideg } else { current + max_step }
        } else {
            if goal_millideg > current - max_step { goal_millideg } else { current - max_step }
        };
        self.current_millideg = next;
        (next, goal_millideg == current)
    }
}

/// The capture-a-note sequence: spin the rollers gently, wait for them to
/// come up to speed, then wait for the stall that means a note is held, and
/// stop.
#[derive(Clone, Copy, Debug, PartialEq, Eq, Structural)]
pub enum GrabAction {
    /// Waiting for the rollers to finish accelerating.
    WaitRunning,
    /// Waiting for the capture stall.
    WaitStalled,
}

/// The grab transition: next state, roller command, completion.
pub open spec fn grab_step_spec(a: GrabAction, s: IntakeSensors) -> (GrabAction, MotorCommand,
    bool) {
    match a {
        GrabAction::WaitRunning => {
            if s.running_spec() {
                (GrabAction::WaitStalled, MotorCommand::Power(400), false)
            } else {
                (GrabAction::WaitRunning, MotorCommand::Power(400), false)
            }
        },
        GrabAction::WaitStalled => {
            if s.stalled_spec() {
                (GrabAction::WaitStalled, MotorCommand::Stop, true)
            } else {
                (GrabAction::WaitStalled, MotorCommand::Power(400), false)
            }
        },
    }
}

impl GrabAction {
    /// A fresh grab attempt.
    pub fn new() -> (r: GrabAction)
        ensures
            r == GrabAction::WaitRunning,
    {
        GrabAction::WaitRunning
    }

    /// One cycle: the roller command to apply and whether the note is held.
    pub fn step(&mut self, s: &IntakeSensors) -> (r: (MotorCommand, bool))
        ensures
            *final(self) == grab_step_spec(*old(self), *s).0,
            r.0 == grab_step_spec(*old(self), *s).1,
            r.1 == grab_step_spec(*old(self), *s).2,
    {
        match *self {
            GrabAction::WaitRunning => {
                if s.running() {
                    *self = GrabAction::WaitStalled;
                }
                (MotorCommand::Power(400), false)
            },
            GrabAction::WaitStalled => {
                if s.stalled() {
                    (MotorCommand::Stop, true)
                } else {
                    (MotorCommand::Power(400), false)
                }
            },
        }
    }
}

/// Raising or lowering the intake arm: ramp the position goal with the
/// trapezoid profile until the ramp reaches the goal, then hold the goal
/// until the measured arm angle crosses the threshold.
#[derive(Clone, Copy, Debug, PartialEq, Eq, Structural)]
pub struct LiftAction {
    /// The angle to command, millidegrees.
    pub goal_millideg: i64,
    /// The measured angle that counts as arrived, millidegrees.
    pub threshold_millideg: i64,
    /// Arrival means the measured angle is below (not above) the threshold.
    pub down: bool,
    /// The ramp toward the goal.
    pub profile: TrapezoidProfile,
    /// Whether the ramp has finished and the plain goal is being held.
    pub ramped: bool,
}

impl LiftAction {
    /// Within the ramp arithmetic's range.
    pub open spec fn wf(self) -> bool {
        &&& self.profile.wf()
        &&& -ARM_ANGLE_BOUND_MILLIDEG <= self.goal_millideg <= ARM_ANGLE_BOUND_MILLIDEG
    }

    /// Whether the measured arm angle has crossed this lift's threshold.
    pub open spec fn arrived_spec(self, s: IntakeSensors) -> bool {
        if self.down {
            s.position_millideg < self.threshold_millideg
        } else {
            s.position_millideg > self.threshold_millideg
        }
    }

    /// One cycle: the arm command and whether the lift has arrived.
    pub fn step(&mut self, s: &IntakeSensors, dt_ms: u64) -> (r: (MotorCommand, bool))
        requires
            old(self).wf(),
            dt_ms <= 1000,
        ensures
            final(self).wf(),
            *final(self) == lift_step_spec(*old(self), *s, dt_ms).0,
            r.0 == lift_step_spec(*old(self), *s, dt_ms).1,
            r.1 == lift_step_spec(*old(self), *s, dt_ms).2,
    {
        if !self.ramped {
            let (cmd, ready) = self.profile.step(self.goal_millideg, dt_ms);
            if ready {
                self.ramped = true;
            }
            (MotorCommand::Position(cmd), false)
        } else {
            let arrived = if self.down {
                s.position_millideg < self.threshold_millideg
            } else {
                s.position_millideg > self.threshold_millideg
            };
            (MotorCommand::Position(self.goal_millideg), arrived)
        }
    }
}

/// The lift transition: next state, arm command, arrival.
pub open spec fn lift_step_spec(l: LiftAction, s: IntakeSensors, dt: u64) -> (LiftAction,
    MotorCommand, bool) {
    if !l.ramped {
        let next = trapezoid_next_spec(l.profile.current_millideg as int, l.goal_millideg as int,
            dt as int);
        let l2 = LiftAction {
            profile: TrapezoidProfile { current_millideg: next as i64 },
            ramped: l.goal_millideg == l.profile.current_millideg,
            ..l
        };
        (l2, MotorCommand::Position(next as i64), false)
    } else {
        (l, MotorCommand::Position(l.goal_millideg), l.arrived_spec(s))
    }
}

/// Begin lowering the intake to its deployed angle.
pub fn lower_intake(arm_position_millideg: i64) -> (r: LiftAction)
    requires
        -ARM_ANGLE_BOUND_MILLIDEG <= arm_position_millideg <= ARM_ANGLE_BOUND_MILLIDEG,
    ensures
        r.wf(),
        r.goal_millideg == INTAKE_DOWN_GOAL_MILLIDEG,
        r.threshold_millideg == INTAKE_DOWN_THRESHOLD_MILLIDEG,
        r.down,
        !r.ramped,
        r.profile.current_millideg == arm_position_millideg,
{
    LiftAction {
        goal_millideg: INTAKE_DOWN_GOAL_MILLIDEG,
        threshold_millideg: INTAKE_DOWN_THRESHOLD_MILLIDEG,
        down: true,
        profile: TrapezoidProfile::new(arm_position_millideg),
        ramped: false,
    }
}

/// Begin raising the intake to its stowed angle.
pub fn raise_intake(arm_position_millideg: i64) -> (r: LiftAction)
    requires
        -ARM_ANGLE_BOUND_MILLIDEG <= arm_position_millideg <= ARM_ANGLE_BOUND_MILLIDEG,
    ensures
        r.wf(),
        r.goal_millideg == INTAKE_UP_GOAL_MILLIDEG,
        r.threshold_millideg == INTAKE_UP_THRESHOLD_MILLIDEG,
        !r.down,
        !r.ramped,
        r.profile.current_millideg == arm_position_millideg,
{
    LiftAction {
        goal_millideg: INTAKE_UP_GOAL_MILLIDEG,
        threshold_millideg: INTAKE_UP_THRESHOLD_MILLIDEG,
        down: false,
        profile: TrapezoidProfile::new(arm_position_millideg),
        ramped: false,
    }
}

/// The intake zeroing sequence: drive the arm up into the limit switch,
/// rest there, confirm the switch, back off slowly, and capture the zero
/// the instant the switch releases.
#[derive(Clone, Copy, Debug, PartialEq, Eq, Structural)]
pub enum ZeroAction {
    /// Driving up toward the limit switch.
    SeekLimit,
    /// Resting at the switch.
    Settle { remaining_ms: u64 },
    /// Confirming the switch is still pressed after the rest.
    Confirm,
    /// Backing off until the switch releases.
    BackOff,
}

/// The zeroing transition: next state, arm command, and the new zero offset
/// (raw angle minus the zero point) the cycle the sequence completes.
pub open spec fn zero_step_spec(a: ZeroAction, s: IntakeSensors, dt: u64) -> (ZeroAction,
    MotorCommand, Option<i64>) {
    match a {
        ZeroAction::SeekLimit => {
            if s.at_limit {
                (ZeroAction::Settle { remaining_ms: 750u64 }, MotorCommand::Power(0), None)
            } else {
                (ZeroAction::SeekLimit, MotorCommand::Power(300), None)
            }
        },
        ZeroAction::Settle { remaining_ms } => {
            let left = countdown_spec(remaining_ms, dt);
            if left == 0 {
                (ZeroAction::Confirm, MotorCommand::Power(0), None)
            } else {
                (ZeroAction::Settle { remaining_ms: left }, MotorCommand::Power(0), None)
            }
        },
        ZeroAction::Confirm => {
            if s.at_limit {
                (ZeroAction::BackOff, MotorCommand::Power(-150i64), None)
            } else {
                (ZeroAction::Confirm, MotorCommand::Power(0), None)
            }
        },
        ZeroAction::BackOff => {
            if !s.at_limit {
                (ZeroAction::BackOff, MotorCommand::Stop, Some(
                    (s.raw_position_millideg - INTAKE_ZERO_POINT_MILLIDEG) as i64))
            } else {
                (ZeroAction::BackOff, MotorCommand::Power(-150i64), None)
            }
        },
    }
}

impl ZeroAction {
    /// A fresh zeroing sequence.
    pub fn new() -> (r: ZeroAction)
        ensures
            r == ZeroAction::SeekLimit,
    {
        ZeroAction::SeekLimit
    }

    /// One cycle: the arm command, and the captured zero offset when done.
    pub fn step(&mut self, s: &IntakeSensors, dt_ms: u64) -> (r: (MotorCommand, Option<i64>))
        requires
            -ARM_ANGLE_BOUND_MILLIDEG <= s.raw_position_millideg <= ARM_ANGLE_BOUND_MILLIDEG,
        ensures
            *final(self) == zero_step_spec(*old(self), *s, dt_ms).0,
            r.0 == zero_step_spec(*old(self), *s, dt_ms).1,
            r.1 == zero_step_spec(*old(self), *s, dt_ms).2,
    {
        match *self {
            ZeroAction::SeekLimit => {
                if s.at_limit {
                    *self = ZeroAction::Settle { remaining_ms: 750 };
                    (MotorCommand::Power(0), None)
                } else {
                    (MotorCommand::Power(300), None)
                }
            },
            ZeroAction::Settle { remaining_ms } => {
                let left = if dt_ms >= remaining_ms { 0 } else { remaining_ms - dt_ms };
                if left == 0 {
                    *self = ZeroAction::Confirm;
                } else {
                    *self = ZeroAction::Settle { remaining_ms: left };
                }
                (MotorCommand::Power(0), None)
            },
            ZeroAction::Confirm => {
                if s.at_limit {
                    *self = ZeroAction::BackOff;
                    (MotorCommand::Power(-150i64), None)
                } else {
                    (MotorCommand::Power(0), None)
                }
            },
            ZeroAction::BackOff => {
                if !s.at_limit {
                    (MotorCommand::Stop, Some(
                        s.raw_position_millideg - INTAKE_ZERO_POINT_MILLIDEG))
                } else {
                    (MotorCommand::Power(-150i64), None)
                }
            },
        }
    }
}

/// Firing through rollers and feeder: wait for the flywheel to spin up,
/// drive the note through, and stop when the flywheel sags.
#[derive(Clone, Copy, Debug, PartialEq, Eq, Structural)]
pub enum ShootAction {
    /// Waiting for the flywheel to exceed the spin-up speed.
    SpinUp,
    /// Feeding; done when the flywheel sags.
    Firing,
}

/// The firing transition: next state, roller command, feeder command,
/// completion.
pub open spec fn shoot_step_spec(a: ShootAction, s: ShooterSensors) -> (ShootAction,
    MotorCommand, MotorCommand, bool) {
    match a {
        ShootAction::SpinUp => {
            if s.velocity_rpm > SHOOT_SPINUP_RPM {
                (ShootAction::Firing, MotorCommand::Power(-1000i64), MotorCommand::Power(-1000i64),
                    false)
            } else {
                (ShootAction::SpinUp, MotorCommand::Stop, MotorCommand::Stop, false)
            }
        },
        ShootAction::Firing => {
            if s.velocity_rpm < SHOOT_SAG_RPM {
                (ShootAction::Firing, MotorCommand::Stop, MotorCommand::Stop, true)
            } else {
                (ShootAction::Firing, MotorCommand::Power(-1000i64), MotorCommand::Power(-1000i64),
                    false)
            }
        },
    }
}

impl ShootAction {
    /// A fresh firing sequence.
    pub fn new() -> (r: ShootAction)
        ensures
            r == ShootAction::SpinUp,
    {
        ShootAction::SpinUp
    }

    /// One cycle: roller command, feeder command, completion.
    pub fn step(&mut self, s: &ShooterSensors) -> (r: (MotorCommand, MotorCommand, bool))
        ensures
            *final(self) == shoot_step_spec(*old(self), *s).0,
            r.0 == shoot_step_spec(*old(self), *s).1,
            r.1 == shoot_step_spec(*old(self), *s).2,
            r.2 == shoot_step_spec(*old(self), *s).3,
    {
        match *self {
            ShootAction::SpinUp => {
                if s.velocity_rpm > SHOOT_SPINUP_RPM {
                    *self = ShootAction::Firing;
                    (MotorCommand::Power(-1000i64), MotorCommand::Power(-1000i64), false)
                } else {
                    (MotorCommand::Stop, MotorCommand::Stop, false)
                }
            },
            ShootAction::Firing => {
                if s.velocity_rpm < SHOOT_SAG_RPM {
                    (MotorCommand::Stop, MotorCommand::Stop, true)
                } else {
                    (MotorCommand::Power(-1000i64), MotorCommand::Power(-1000i64), false)
                }
            },
        }
    }
}

/// Firing through the feeder alone (the rollers stay untouched).
#[derive(Clone, Copy, Debug, PartialEq, Eq, Structural)]
pub enum SushiShootAction {
    /// Waiting for the flywheel to exceed the spin-up speed.
    SpinUp,
    /// Feeding; done when the flywheel sags.
    Firing,
}

/// The feeder-only firing transition: next state, feeder command,
/// completion.
pub open spec fn sushi_step_spec(a: SushiShootAction, s: ShooterSensors) -> (SushiShootAction,
    MotorCommand, bool) {
    match a {
        SushiShootAction::SpinUp => {
            if s.velocity_rpm > SHOOT_SPINUP_RPM {
                (SushiShootAction::Firing, MotorCommand::Power(-1000i64), false)
            } else {
                (SushiShootAction::SpinUp, MotorCommand::Stop, false)
            }
        },
        SushiShootAction::Firing => {
            if s.velocity_rpm < SHOOT_SAG_RPM {
                (SushiShootAction::Firing, MotorCommand::Stop, true)
            } else {
                (SushiShootAction::Firing, MotorCommand::Power(-1000i64), false)
            }
        },
    }
}

impl SushiShootAction {
    /// A fresh feeder-only firing sequence.
    pub fn new() -> (r: SushiShootAction)
        ensures
            r == SushiShootAction::SpinUp,
    {
        SushiShootAction::SpinUp
    }

    /// One cycle: the feeder command and completion.
    pub fn step(&mut self, s: &ShooterSensors) -> (r: (MotorCommand, bool))
        ensures
            *final(self) == sushi_step_spec(*old(self), *s).0,
            r.0 == sushi_step_spec(*old(self), *s).1,
            r.1 == sushi_step_spec(*old(self), *s).2,
    {
        match *self {
            SushiShootAction::SpinUp => {
                if s.velocity_rpm > SHOOT_SPINUP_RPM {
                    *self = SushiShootAction::Firing;
                    (MotorCommand::Power(-1000i64), false)
                } else {
                    (MotorCommand::Stop, false)
                }
            },
            SushiShootAction::Firing => {
                if s.velocity_rpm < SHOOT_SAG_RPM {
                    (MotorCommand::Stop, true)
                } else {
                    (MotorCommand::Power(-1000i64), false)
                }
            },
        }
    }
}

/// The gentler feed shot: spin up past a lower threshold, feed softly for a
/// fixed burst, then stop.
#[derive(Clone, Copy, Debug, PartialEq, Eq, Structural)]
pub enum FeedShotAction {
    /// Waiting for the flywheel to exceed the feed-shot speed.
    SpinUp,
    /// Feeding for the remainder of the burst.
    Burst { remaining_ms: u64 },
}

/// The feed-shot transition: next state, feeder command, completion.
pub open spec fn feed_shot_step_spec(a: FeedShotAction, s: ShooterSensors, dt: u64) -> (
    FeedShotAction, MotorCommand, bool) {
    match a {
        FeedShotAction::SpinUp => {
            if s.velocity_rpm > FEED_SHOT_SPINUP_RPM {
                (FeedShotAction::Burst { remaining_ms: 300u64 }, MotorCommand::Power(-400i64),
                    false)
            } else {
                (FeedShotAction::SpinUp, MotorCommand::Stop, false)
            }
        },
        FeedShotAction::Burst { remaining_ms } => {
            let left = countdown_spec(remaining_ms, dt);
            if left == 0 {
                (FeedShotAction::Burst { remaining_ms: 0u64 }, MotorCommand::Power(0), true)
            } else {
                (FeedShotAction::Burst { remaining_ms: left }, MotorCommand::Power(-400i64), false)
            }
        },
    }
}

impl FeedShotAction {
    /// A fresh feed shot.
    pub fn new() -> (r: FeedShotAction)
        ensures
            r == FeedShotAction::SpinUp,
    {
        FeedShotAction::SpinUp
    }

    /// One cycle: the feeder command and completion.
    pub fn step(&mut self, s: &ShooterSensors, dt_ms: u64) -> (r: (MotorCommand, bool))
        ensures
            *final(self) == feed_shot_step_spec(*old(self), *s, dt_ms).0,
            r.0 == feed_shot_step_spec(*old(self), *s, dt_ms).1,
            r.1 == feed_shot_step_spec(*old(self), *s, dt_ms).2,
    {
        match *self {
            FeedShotAction::SpinUp => {
                if s.velocity_rpm > FEED_SHOT_SPINUP_RPM {
                    *self = FeedShotAction::Burst { remaining_ms: 300 };
                    (MotorCommand::Power(-400i64), false)
                } else {
                    (MotorCommand::Stop, false)
                }
            },
            FeedShotAction::Burst { remaining_ms } => {
                let left = if dt_ms >= remaining_ms { 0 } else { remaining_ms - dt_ms };
                *self = FeedShotAction::Burst { remaining_ms: left };
                if left == 0 {
                    (MotorCommand::Power(0), true)
                } else {
                    (MotorCommand::Power(-400i64), false)
                }
            },
        }
    }
}

/// The commands a hand-off cycle issues to the devices it claims.
#[derive(Clone, Copy, Debug, PartialEq, Eq, Structural)]
pub struct StageCommands {
    /// Intake roller command.
    pub rollers: MotorCommand,
    /// Intake arm command.
    pub actuate: MotorCommand,
    /// Feeder command.
    pub feeder: MotorCommand,
}

/// Where the hand-off sequence stands.
#[derive(Clone, Copy, Debug, PartialEq, Eq, Structural)]
pub enum StagePhase {
    /// Raising the intake while the rollers keep the note.
    Raise,
    /// Letting the arm settle at the top.
    Settle { remaining_ms: u64 },
    /// Feeding the note across until the beam-break trips.
    Feed,
    /// Pushing the note past the beam-break.
    Push,
}

/// The transfer-note-to-shooter sequence: raise the intake with the note
/// held, settle, feed the note across until the beam-break sees it, then
/// push it just past the sensor and stop.
#[derive(Clone, Copy, Debug, PartialEq, Eq, Structural)]
pub struct StageAction {
    /// The current phase.
    pub phase: StagePhase,
    /// The raise move used during the first phase.
    pub lift: LiftAction,
}

/// The hand-off transition: next state, device commands, completion.
pub open spec fn stage_step_spec(a: StageAction, i: IntakeSensors, sh: ShooterSensors, dt: u64)
    -> (StageAction, StageCommands, bool) {
    match a.phase {
        StagePhase::Raise => {
            let (l2, cmd, arrived) = lift_step_spec(a.lift, i, dt);
            let phase = if arrived {
                StagePhase::Settle { remaining_ms: 200u64 }
            } else {
                StagePhase::Raise
            };
            (StageAction { phase, lift: l2 }, StageCommands {
                rollers: MotorCommand::Power(1000),
                actuate: cmd,
                feeder: MotorCommand::Stop,
            }, false)
        },
        StagePhase::Settle { remaining_ms } => {
            let left = countdown_spec(remaining_ms, dt);
            let phase = if left == 0 {
                StagePhase::Feed
            } else {
                StagePhase::Settle { remaining_ms: left }
            };
            (StageAction { phase, ..a }, StageCommands {
                rollers: MotorCommand::Power(1000),
                actuate: MotorCommand::Position(INTAKE_UP_GOAL_MILLIDEG),
                feeder: MotorCommand::Stop,
            }, false)
        },
        StagePhase::Feed => {
            if sh.contains_note {
                (StageAction { phase: StagePhase::Push, ..a }, StageCommands {
                    rollers: MotorCommand::Power(0),
                    actuate: MotorCommand::Power(0),
                    feeder: MotorCommand::Power(-100i64),
                }, false)
            } else {
                (a, StageCommands {
                    rollers: MotorCommand::Power(-130i64),
                    actuate: MotorCommand::Position(INTAKE_UP_GOAL_MILLIDEG),
                    feeder: MotorCommand::Power(-340i64),
                }, false)
            }
        },
        StagePhase::Push => {
            if !sh.contains_note {
                (a, StageCommands {
                    rollers: MotorCommand::Power(0),
                    actuate: MotorCommand::Power(0),
                    feeder: MotorCommand::Power(0),
                }, true)
            } else {
                (a, StageCommands {
                    rollers: MotorCommand::Power(0),
                    actuate: MotorCommand::Power(0),
                    feeder: MotorCommand::Power(-100i64),
                }, false)
            }
        },
    }
}

impl StageAction {
    /// Within the ramp arithmetic's range.
    pub open spec fn wf(self) -> bool {
        self.lift.wf()
    }

    /// A fresh hand-off starting a raise from the current arm angle.
    pub fn new(arm_position_millideg: i64) -> (r: StageAction)
        requires
            -ARM_ANGLE_BOUND_MILLIDEG <= arm_position_millideg <= ARM_ANGLE_BOUND_MILLIDEG,
        ensures
            r.wf(),
            r.phase == StagePhase::Raise,
            r.lift == raise_lift_spec(arm_position_millideg),
    {
        StageAction { phase: StagePhase::Raise, lift: raise_intake(arm_position_millideg) }
    }

    /// One cycle: the claimed devices' commands and completion.
    pub fn step(&mut self, i: &IntakeSensors, sh: &ShooterSensors, dt_ms: u64) -> (r: (
        StageCommands, bool))
        requires
            old(self).wf(),
            dt_ms <= 1000,
        ensures
            final(self).wf(),
            *final(self) == stage_step_spec(*old(self), *i, *sh, dt_ms).0,
            r.0 == stage_step_spec(*old(self), *i, *sh, dt_ms).1,
            r.1 == stage_step_spec(*old(self), *i, *sh, dt_ms).2,
    {
        match self.phase {
            StagePhase::Raise => {
                let (cmd, arrived) = self.lift.step(i, dt_ms);
                if arrived {
                    self.phase = StagePhase::Settle { remaining_ms: 200 };
                }
                ((StageCommands {
                    rollers: MotorCommand::Power(1000),
                    actuate: cmd,
                    feeder: MotorCommand::Stop,
                }), false)
            },
            StagePhase::Settle { remaining_ms } => {
                let left = if dt_ms >= remaining_ms { 0 } else { remaining_ms - dt_ms };
                if left == 0 {
                    self.phase = StagePhase::Feed;
                } else {
                    self.phase = StagePhase::Settle { remaining_ms: left };
                }
                ((StageCommands {
                    rollers: MotorCommand::Power(1000),
                    actuate: MotorCommand::Position(INTAKE_UP_GOAL_MILLIDEG),
                    feeder: MotorCommand::Stop,
                }), false)
            },
            StagePhase::Feed => {
                if sh.contains_note {
                    self.phase = StagePhase::Push;
                    ((StageCommands {
                        rollers: MotorCommand::Power(0),
                        actuate: MotorCommand::Power(0),
                        feeder: MotorCommand::Power(-100i64),
                    }), false)
                } else {
                    ((StageCommands {
                        rollers: MotorCommand::Power(-130i64),
                        actuate: MotorCommand::Position(INTAKE_UP_GOAL_MILLIDEG),
                        feeder: MotorCommand::Power(-340i64),
                    }), false)
                }
            },
            StagePhase::Push => {
                if !sh.contains_note {
                    ((StageCommands {
                        rollers: MotorCommand::Power(0),
                        actuate: MotorCommand::Power(0),
                        feeder: MotorCommand::Power(0),
                    }), true)
                } else {
                    ((StageCommands {
                        rollers: MotorCommand::Power(0),
                        actuate: MotorCommand::Power(0),
                        feeder: MotorCommand::Power(-100i64),
                    }), false)
                }
            },
        }
    }
}

/// The lift value `raise_intake` starts from a given arm angle.
pub open spec fn raise_lift_spec(arm_position_millideg: i64) -> LiftAction {
    LiftAction {
        goal_millideg: INTAKE_UP_GOAL_MILLIDEG,
        threshold_millideg: INTAKE_UP_THRESHOLD_MILLIDEG,
        down: false,
        profile: TrapezoidProfile { current_millideg: arm_position_millideg },
        ramped: false,
    }
}

/// The lift value `lower_intake` starts from a given arm angle.
pub open spec fn lower_lift_spec(arm_position_millideg: i64) -> LiftAction {
    LiftAction {
        goal_millideg: INTAKE_DOWN_GOAL_MILLIDEG,
        threshold_millideg: INTAKE_DOWN_THRESHOLD_MILLIDEG,
        down: true,
        profile: TrapezoidProfile { current_millideg: arm_position_millideg },
        ramped: false,
    }
}

/// The full pickup: lower the intake, grab a note off the floor, and hand
/// it off to the shooter, as one cancellable unit.
#[derive(Clone, Copy, Debug, PartialEq, Eq, Structural)]
pub enum GrabFullAction {
    /// Lowering the intake.
    Lower(LiftAction),
    /// Rollers on, waiting for them to come up to speed.
    WaitRunning,
    /// Waiting for the capture stall.
    WaitStalled,
    /// Handing the note off.
    Staging(StageAction),
}

/// The full-pickup transition: next state, device commands, completion.
pub open spec fn grab_full_step_spec(a: GrabFullAction, i: IntakeSensors, sh: ShooterSensors,
    dt: u64) -> (GrabFullAction, StageCommands, bool) {
    match a {
        GrabFullAction::Lower(l) => {
            let (l2, cmd, arrived) = lift_step_spec(l, i, dt);
            let next = if arrived {
                GrabFullAction::WaitRunning
            } else {
                GrabFullAction::Lower(l2)
            };
            (next, StageCommands {
                rollers: MotorCommand::Stop,
                actuate: cmd,
                feeder: MotorCommand::Stop,
            }, false)
        },
        GrabFullAction::WaitRunning => {
            let next = if i.running_spec() {
                GrabFullAction::WaitStalled
            } else {
                GrabFullAction::WaitRunning
            };
            (next, StageCommands {
                rollers: MotorCommand::Power(600),
                actuate: MotorCommand::Position(INTAKE_DOWN_GOAL_MILLIDEG),
                feeder: MotorCommand::Stop,
            }, false)
        },
        GrabFullAction::WaitStalled => {
            if i.stalled_spec() {
                (GrabFullAction::Staging(StageAction {
                    phase: StagePhase::Raise,
                    lift: raise_lift_spec(clamp_arm_spec(i.position_millideg)),
                }), StageCommands {
                    rollers: MotorCommand::Stop,
                    actuate: MotorCommand::Position(INTAKE_DOWN_GOAL_MILLIDEG),
                    feeder: MotorCommand::Stop,
                }, false)
            } else {
                (GrabFullAction::WaitStalled, StageCommands {
                    rollers: MotorCommand::Power(600),
                    actuate: MotorCommand::Position(INTAKE_DOWN_GOAL_MILLIDEG),
                    feeder: MotorCommand::Stop,
                }, false)
            }
        },
        GrabFullAction::Staging(st) => {
            let (st2, cmds, done) = stage_step_spec(st, i, sh, dt);
            (GrabFullAction::Staging(st2), cmds, done)
        },
    }
}

/// An arm angle forced into the ramp arithmetic's range.
pub open spec fn clamp_arm_spec(a: i64) -> i64 {
    if a > ARM_ANGLE_BOUND_MILLIDEG {
        ARM_ANGLE_BOUND_MILLIDEG
    } else if a < -ARM_ANGLE_BOUND_MILLIDEG {
        (-ARM_ANGLE_BOUND_MILLIDEG) as i64
    } else {
        a
    }
}

impl GrabFullAction {
    /// Within the ramp arithmetic's range.
    pub open spec fn wf(self) -> bool {
        match self {
            GrabFullAction::Lower(l) => l.wf(),
            GrabFullAction::Staging(st) => st.wf(),
            _ => true,
        }
    }

    /// A fresh full pickup starting a lower from the current arm angle.
    pub fn new(arm_position_millideg: i64) -> (r: GrabFullAction)
        requires
            -ARM_ANGLE_BOUND_MILLIDEG <= arm_position_millideg <= ARM_ANGLE_BOUND_MILLIDEG,
        ensures
            r.wf(),
            r == GrabFullAction::Lower(lower_lift_spec(arm_position_millideg)),
    {
        GrabFullAction::Lower(lower_intake(arm_position_millideg))
    }

    /// One cycle: the claimed devices' commands and completion.
    pub fn step(&mut self, i: &IntakeSensors, sh: &ShooterSensors, dt_ms: u64) -> (r: (
        StageCommands, bool))
        requires
            old(self).wf(),
            dt_ms <= 1000,
        ensures
            final(self).wf(),
            *final(self) == grab_full_step_spec(*old(self), *i, *sh, dt_ms).0,
            r.0 == grab_full_step_spec(*old(self), *i, *sh, dt_ms).1,
            r.1 == grab_full_step_spec(*old(self), *i, *sh, dt_ms).2,
    {
        match *self {
            GrabFullAction::Lower(ref mut l) => {
                let (cmd, arrived) = l.step(i, dt_ms);
                if arrived {
                    *self = GrabFullAction::WaitRunning;
                }
                ((StageCommands {
                    rollers: MotorCommand::Stop,
                    actuate: cmd,
                    feeder: MotorCommand::Stop,
                }), false)
            },
            GrabFullAction::WaitRunning => {
                if i.running() {
                    *self = GrabFullAction::WaitStalled;
                }
                ((StageCommands {
                    rollers: MotorCommand::Power(600),
                    actuate: MotorCommand::Position(INTAKE_DOWN_GOAL_MILLIDEG),
                    feeder: MotorCommand::Stop,
                }), false)
            },
            GrabFullAction::WaitStalled => {
                if i.stalled() {
                    let arm = if i.position_millideg > ARM_ANGLE_BOUND_MILLIDEG {
                        ARM_ANGLE_BOUND_MILLIDEG
                    } else if i.position_millideg < -ARM_ANGLE_BOUND_MILLIDEG {
                        -ARM_ANGLE_BOUND_MILLIDEG
                    } else {
                        i.position_millideg
                    };
                    *self = GrabFullAction::Staging(StageAction::new(arm));
                    ((StageCommands {
                        rollers: MotorCommand::Stop,
                        actuate: MotorCommand::Position(INTAKE_DOWN_GOAL_MILLIDEG),
                        feeder: MotorCommand::Stop,
                    }), false)
                } else {
                    ((StageCommands {
                        rollers: MotorCommand::Power(600),
                        actuate: MotorCommand::Position(INTAKE_DOWN_GOAL_MILLIDEG),
                        feeder: MotorCommand::Stop,
                    }), false)
                }
            },
            GrabFullAction::Staging(ref mut st) => {
                let (cmds, done) = st.step(i, sh, dt_ms);
                (cmds, done)
            },
        }
    }
}

/// Loading a note into the feeder: pull gently until the beam-break trips.
#[derive(Clone, Copy, Debug, PartialEq, Eq, Structural)]
pub struct LoadAction {
}

/// The load transition: feeder command and completion.
pub open spec fn load_step_spec(s: ShooterSensors) -> (MotorCommand, bool) {
    if s.contains_note {
        (MotorCommand::Stop, true)
    } else {
        (MotorCommand::Power(-200i64), false)
    }
}

impl LoadAction {
    /// A fresh load sequence.
    pub fn new() -> (r: LoadAction) {
        LoadAction { }
    }

    /// One cycle: the feeder command and completion.
    pub fn step(&mut self, s: &ShooterSensors) -> (r: (MotorCommand, bool))
        ensures
            r.0 == load_step_spec(*s).0,
            r.1 == load_step_spec(*s).1,
    {
        if s.contains_note {
            (MotorCommand::Stop, true)
        } else {
            (MotorCommand::Power(-200i64), false)
        }
    }
}

} // verus!
