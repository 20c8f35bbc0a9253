//! The fixed-rate control loop's decisions: mode dispatch, the start-once /
//! cancel-immediately rule for autonomous scripts, the sleep budget that
//! holds the target cycle rate, and the achieved-rate diagnostic.
//!
//! The loop itself — reading hardware, sleeping, spawning — lives at the
//! edge; it asks these functions what to do each cycle.

use vstd::prelude::*;

verus! {

/// Target cycle rate of the control loop, Hz.
pub const CYCLE_RATE_HZ: u64 = 250;

/// The robot's externally reported mode bits for one cycle.
#[derive(Clone, Copy, Debug, PartialEq, Eq, Structural)]
pub struct RobotModes {
    /// Outputs are live.
    pub enabled: bool,
    /// Driver control selected.
    pub teleop: bool,
    /// Autonomous selected.
    pub auto: bool,
    /// Test mode selected.
    pub test: bool,
}

/// Whether this cycle dispatches to teleoperated control.
pub open spec fn run_teleop_spec(m: RobotModes) -> bool {
    m.enabled && m.teleop && !m.test
}

/// Whether this cycle dispatches to teleoperated control.
pub fn run_teleop(m: &RobotModes) -> (r: bool)
    ensures
        r == run_teleop_spec(*m),
{
    m.enabled && m.teleop && !m.test
}

/// Whether the selected autonomous script starts this cycle: exactly on
/// entering enabled-autonomous with no script already running.
pub open spec fn start_auto_spec(m: RobotModes, auto_running: bool) -> bool {
    m.enabled && m.auto && !auto_running
}

/// Whether the selected autonomous script starts this cycle.
pub fn start_auto(m: &RobotModes, auto_running: bool) -> (r: bool)
    ensures
        r == start_auto_spec(*m, auto_running),
{
    m.enabled && m.auto && !auto_running
}

/// Whether a running script is cancelled this cycle: on any transition out
/// of enabled-autonomous.
pub open spec fn cancel_auto_spec(m: RobotModes, auto_running: bool) -> bool {
    !(m.enabled && m.auto) && auto_running
}

/// Whether a running script is cancelled this cycle.
pub fn cancel_auto(m: &RobotModes, auto_running: bool) -> (r: bool)
    ensures
        r == cancel_auto_spec(*m, auto_running),
{
    !(m.enabled && m.auto) && auto_running
}

/// Whether this cycle records the absolute encoder offsets (test mode).
pub open spec fn run_test_spec(m: RobotModes) -> bool {
    m.enabled && m.test
}

/// Whether this cycle records the absolute encoder offsets.
pub fn run_test(m: &RobotModes) -> (r: bool)
    ensures
        r == run_test_spec(*m),
{
    m.enabled && m.test
}

/// The cycle period at the target rate, microseconds.
pub open spec fn cycle_period_us_spec() -> int {
    1_000_000int / (CYCLE_RATE_HZ as int)
}

/// The remaining sleep budget after a cycle that took `elapsed_us`:
/// the period minus the elapsed time, clamped at zero when the cycle
/// overran.
pub open spec fn sleep_budget_us_spec(elapsed_us: int) -> int {
    if elapsed_us >= cycle_period_us_spec() {
        0
    } else {
        cycle_period_us_spec() - elapsed_us
    }
}

/// How long to sleep after a cycle that took `elapsed_us`.
pub fn sleep_budget_us(elapsed_us: u64) -> (r: u64)
    ensures
        r == sleep_budget_us_spec(elapsed_us as int),
        r <= cycle_period_us_spec(),
{
    let period: u64 = 1_000_000u64 / CYCLE_RATE_HZ;
    if elapsed_us >= period {
        0
    } else {
        period - elapsed_us
    }
}

/// The achieved loop rate for a cycle of `elapsed_us`, milli-Hertz.
pub open spec fn achieved_rate_millihz_spec(elapsed_us: int) -> int {
    1_000_000_000int / elapsed_us
}

/// The achieved loop rate for a cycle of `elapsed_us`, milli-Hertz.
pub fn achieved_rate_millihz(elapsed_us: u64) -> (r: u64)
    requires
        elapsed_us >= 1,
    ensures
        r == achieved_rate_millihz_spec(elapsed_us as int),
{
    1_000_000_000u64 / elapsed_us
}

} // verus!
