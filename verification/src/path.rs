//! Time-parameterized paths and the closed-loop trajectory follower.
//!
//! A trajectory is an immutable sequence of time-stamped samples (position
//! in micrometers, heading in millidegrees, velocity in micrometers per
//! second).  Sampling at an elapsed time interpolates linearly between the
//! neighbouring samples and clamps at both ends.  The follower compares the
//! sample against the odometry estimate and emits a body-frame motion
//! request: proportional position feedback, velocity and acceleration
//! feed-forward, optional integral and derivative terms, and proportional
//! heading feedback, with red-alliance mirroring applied to the sample.  It
//! declares the path complete only when the time has run out *and* both
//! position and heading errors are inside their tolerances.

use vstd::prelude::*;

use crate::angle::{wrap_half_spec, wrap_half, ANGLE_BOUND_MILLIDEG};
use crate::kinematics::{Vec2, div_trunc_spec, div_trunc, lemma_div_trunc_cap};
use crate::odometry::HALF_FIELD_WIDTH_UM;

verus! {

/// Largest coordinate / velocity a path sample may hold.
pub const SAMPLE_BOUND: i64 = 10_000_000_000;

/// Largest heading a path sample may hold, millidegrees.
pub const SAMPLE_HEADING_BOUND: i64 = 10_000_000;

/// Largest sample timestamp, milliseconds.
pub const TIME_BOUND_MS: i64 = 10_000_000;

/// Largest gain value the follower accepts (milli, so 100.0).
pub const GAIN_BOUND_MILLI: i64 = 100_000;

/// Largest odometry position the follower accepts, micrometers.
pub const FOLLOW_POSITION_BOUND_UM: i64 = 1_000_000_000_000;

/// Scaled circle constant used to turn millidegrees into a proportional
/// heading command.
pub const PI_MICRO: i64 = 3_141_593;

/// One time-stamped point of a pre-recorded path.
#[derive(Clone, Copy, Debug, PartialEq, Eq, Structural)]
pub struct PathSample {
    /// Timestamp from the start of the path, milliseconds.
    pub time_ms: i64,
    /// Field position, micrometers.
    pub x: i64,
    /// Field position, micrometers.
    pub y: i64,
    /// Field heading, millidegrees.
    pub heading: i64,
    /// Field-frame velocity, micrometers per second.
    pub velocity_x: i64,
    /// Field-frame velocity, micrometers per second.
    pub velocity_y: i64,
}

impl PathSample {
    /// Within the ranges the sampling arithmetic accepts.
    pub open spec fn in_bounds(self) -> bool {
        &&& 0 <= self.time_ms <= TIME_BOUND_MS
        &&& -SAMPLE_BOUND <= self.x <= SAMPLE_BOUND
        &&& -SAMPLE_BOUND <= self.y <= SAMPLE_BOUND
        &&& -SAMPLE_HEADING_BOUND <= self.heading <= SAMPLE_HEADING_BOUND
        &&& -SAMPLE_BOUND <= self.velocity_x <= SAMPLE_BOUND
        &&& -SAMPLE_BOUND <= self.velocity_y <= SAMPLE_BOUND
    }
}

/// Linear interpolation of one field between samples `a` (at `t0`) and `b`
/// (at `t1`), evaluated at `t`.
pub open spec fn lerp_spec(a: int, b: int, t0: int, t1: int, t: int) -> int {
    a + div_trunc_spec((b - a) * (t - t0), t1 - t0)
}

/// The sample interpolated between `a` and `b` at time `t`.
pub open spec fn lerp_sample_spec(a: PathSample, b: PathSample, t: int) -> PathSample {
    PathSample {
        time_ms: a.time_ms,
        x: lerp_spec(a.x as int, b.x as int, a.time_ms as int, b.time_ms as int, t) as i64,
        y: lerp_spec(a.y as int, b.y as int, a.time_ms as int, b.time_ms as int, t) as i64,
        heading: lerp_spec(
            a.heading as int, b.heading as int, a.time_ms as int, b.time_ms as int, t) as i64,
        velocity_x: lerp_spec(
            a.velocity_x as int, b.velocity_x as int, a.time_ms as int, b.time_ms as int,
            t) as i64,
        velocity_y: lerp_spec(
            a.velocity_y as int, b.velocity_y as int, a.time_ms as int, b.time_ms as int,
            t) as i64,
    }
}

/// The path's value at elapsed time `t`: the first sample before the path
/// starts, the last after it ends, and the linear interpolation between the
/// two neighbouring samples in between.
pub open spec fn sample_spec(s: Seq<PathSample>, t: int) -> PathSample
    decreases s.len(),
{
    if s.len() == 0 {
        PathSample { time_ms: 0, x: 0, y: 0, heading: 0, velocity_x: 0, velocity_y: 0 }
    } else if s.len() == 1 || t < s[0].time_ms {
        s[0]
    } else if t < s[1].time_ms {
        lerp_sample_spec(s[0], s[1], t)
    } else {
        sample_spec(s.skip(1), t)
    }
}

/// An immutable, pre-recorded path.
pub struct Trajectory {
    /// The samples in time order; never empty for a well-formed path.
    pub samples: Vec<PathSample>,
}

impl Trajectory {
    /// At least one sample, all in range, timestamps strictly increasing.
    pub open spec fn wf(self) -> bool {
        &&& self.samples@.len() >= 1
        &&& forall|i: int| 0 <= i < self.samples@.len()
            ==> (#[trigger] self.samples@[i]).in_bounds()
        &&& forall|i: int| 0 <= i < self.samples@.len() - 1
            ==> (#[trigger] self.samples@[i]).time_ms < self.samples@[i + 1].time_ms
    }

    /// Build a path from samples, checking well-formedness.
    pub fn new(samples: Vec<PathSample>) -> (r: Option<Trajectory>)
        ensures
            match r {
                Some(tr) => tr.wf() && tr.samples@ == samples@,
                None => !(Trajectory { samples }).wf(),
            },
    {
        if samples.len() == 0 {
            return None;
        }
        let n = samples.len();
        let mut i: usize = 0;
        while i < n
            invariant
                n == samples@.len(),
                i <= n,
                forall|j: int| 0 <= j < i ==> (#[trigger] samples@[j]).in_bounds(),
                forall|j: int| 0 <= j < i - 1
                    ==> (#[trigger] samples@[j]).time_ms < samples@[j + 1].time_ms,
            decreases n - i,
        {
            let s = samples[i];
            if !(0 <= s.time_ms && s.time_ms <= TIME_BOUND_MS
                && -SAMPLE_BOUND <= s.x && s.x <= SAMPLE_BOUND
                && -SAMPLE_BOUND <= s.y && s.y <= SAMPLE_BOUND
                && -SAMPLE_HEADING_BOUND <= s.heading && s.heading <= SAMPLE_HEADING_BOUND
                && -SAMPLE_BOUND <= s.velocity_x && s.velocity_x <= SAMPLE_BOUND
                && -SAMPLE_BOUND <= s.velocity_y && s.velocity_y <= SAMPLE_BOUND)
            {
                return None;
            }
            if i > 0 {
                if !(samples[i - 1].time_ms < s.time_ms) {
                    return None;
                }
            }
            i = i + 1;
        }
        Some(Trajectory { samples })
    }

    /// Total duration of the path: the last sample's timestamp.
    pub open spec fn duration_spec(self) -> int {
        self.samples@.last().time_ms as int
    }

    /// Total duration of the path, milliseconds.
    pub fn duration(&self) -> (r: i64)
        requires
            self.wf(),
        ensures
            r == self.duration_spec(),
            0 <= r <= TIME_BOUND_MS,
    {
        self.samples[self.samples.len() - 1].time_ms
    }

    /// Sample the path at elapsed time `t` milliseconds.
    pub fn sample(&self, t: i64) -> (r: PathSample)
        requires
            self.wf(),
            -TIME_BOUND_MS <= t <= 2 * TIME_BOUND_MS,
        ensures
            r == sample_spec(self.samples@, t as int),
            r.in_bounds(),
    {
        let ghost s = self.samples@;
        let n = self.samples.len();
        if t < self.samples[0].time_ms || n == 1 {
            return self.samples[0];
        }
        let mut k: usize = 0;
        proof {
            assert(s.skip(0) =~= s);
        }
        while k + 1 < n
            invariant
                s == self.samples@,
                self.wf(),
                n == s.len(),
                n >= 2,
                k < n,
                t >= s[k as int].time_ms,
                -TIME_BOUND_MS <= t <= 2 * TIME_BOUND_MS,
                sample_spec(s, t as int) == sample_spec(s.skip(k as int), t as int),
            decreases n - k,
        {
            proof {
                assert(s.skip(k as int)[0] == s[k as int]);
                assert(s.skip(k as int)[1] == s[k as int + 1]);
            }
            if t < self.samples[k + 1].time_ms {
                let a = self.samples[k];
                let b = self.samples[k + 1];
                let x = lerp(a.x, b.x, a.time_ms, b.time_ms, t);
                let y = lerp(a.y, b.y, a.time_ms, b.time_ms, t);
                let heading = lerp(a.heading, b.heading, a.time_ms, b.time_ms, t);
                let velocity_x = lerp(a.velocity_x, b.velocity_x, a.time_ms, b.time_ms, t);
                let velocity_y = lerp(a.velocity_y, b.velocity_y, a.time_ms, b.time_ms, t);
                return PathSample {
                    time_ms: a.time_ms,
                    x,
                    y,
                    heading,
                    velocity_x,
                    velocity_y,
                };
            }
            proof {
                assert(s.skip(k as int).skip(1) =~= s.skip(k as int + 1));
            }
            k = k + 1;
        }
        proof {
            assert(s.skip(k as int).len() == 1);
            assert(s.skip(k as int)[0] == s[k as int]);
        }
        self.samples[n - 1]
    }
}

/// Magnitude of an integer.
pub open spec fn abs_spec(a: int) -> int {
    if a >= 0 { a } else { -a }
}

/// The larger of two integers.
pub open spec fn max_spec(a: int, b: int) -> int {
    if a >= b { a } else { b }
}

/// The representative of `d` modulo a full turn in `(-180_000, 180_000]`
/// millidegrees: the heading-error band.
pub open spec fn wrap_half_up_spec(d: int) -> int {
    if wrap_half_spec(d) == -180_000 { 180_000 } else { wrap_half_spec(d) }
}

/// `v` clamped to `[-100_000, 100_000]` milli-fraction.
pub open spec fn clamp_milli_spec(v: int) -> int {
    if v > 100_000 { 100_000 } else if v < -100_000 { -100_000 } else { v }
}

/// The sample's `y`, mirrored across the field's short axis for the red
/// alliance.
pub open spec fn m_y(s: PathSample, red: bool) -> int {
    if red { HALF_FIELD_WIDTH_UM - s.y } else { s.y as int }
}

/// The sample's heading, negated for the red alliance.
pub open spec fn m_heading(s: PathSample, red: bool) -> int {
    if red { -s.heading } else { s.heading as int }
}

/// The sample's lateral velocity, negated for the red alliance.
pub open spec fn m_vy(s: PathSample, red: bool) -> int {
    if red { -s.velocity_y } else { s.velocity_y as int }
}

/// The follower's control gains and termination tolerances.
#[derive(Clone, Copy, Debug, PartialEq, Eq, Structural)]
pub struct FollowerGains {
    /// Proportional position gain, milli.
    pub kp_drive: i64,
    /// Integral position gain, milli.
    pub ki_drive: i64,
    /// Derivative gain on the commanded speed, milli.
    pub kd_drive: i64,
    /// Velocity feed-forward gain, milli.
    pub kf: i64,
    /// Acceleration feed-forward gain, milli.
    pub kfa: i64,
    /// Proportional heading gain, milli.
    pub kp_turn: i64,
    /// Position error below which the integral accumulates, micrometers.
    pub integral_enable_um: i64,
    /// Position tolerance for completion, micrometers.
    pub max_err_um: i64,
    /// Heading tolerance for completion, millidegrees.
    pub max_heading_err_millideg: i64,
}

impl FollowerGains {
    /// Gains within the accepted ranges.
    pub open spec fn wf(self) -> bool {
        &&& 0 <= self.kp_drive <= GAIN_BOUND_MILLI
        &&& 0 <= self.ki_drive <= GAIN_BOUND_MILLI
        &&& 0 <= self.kd_drive <= GAIN_BOUND_MILLI
        &&& 0 <= self.kf <= GAIN_BOUND_MILLI
        &&& 0 <= self.kfa <= GAIN_BOUND_MILLI
        &&& 0 <= self.kp_turn <= GAIN_BOUND_MILLI
        &&& 0 <= self.integral_enable_um <= FOLLOW_POSITION_BOUND_UM
        &&& 0 <= self.max_err_um <= FOLLOW_POSITION_BOUND_UM
        &&& 0 <= self.max_heading_err_millideg <= 180_000
    }

    /// The competition tuning: proportional position and heading feedback
    /// only, a 0.15 m position tolerance and a 0.075 rad heading tolerance.
    pub fn competition() -> (r: FollowerGains)
        ensures
            r.wf(),
            r.kp_drive == 300 && r.ki_drive == 0 && r.kd_drive == 0,
            r.kf == 0 && r.kfa == 0,
            r.kp_turn == 300,
            r.integral_enable_um == 0,
            r.max_err_um == 150_000,
            r.max_heading_err_millideg == 4297,
    {
        FollowerGains {
            kp_drive: 300,
            ki_drive: 0,
            kd_drive: 0,
            kf: 0,
            kfa: 0,
            kp_turn: 300,
            integral_enable_um: 0,
            max_err_um: 150_000,
            max_heading_err_millideg: 4297,
        }
    }

    /// The same gains with a looser position tolerance, for rolling through
    /// a setpoint during multi-leg scripts.
    pub fn with_max_err(self, max_err_um: i64) -> (r: FollowerGains)
        requires
            self.wf(),
            0 <= max_err_um <= FOLLOW_POSITION_BOUND_UM,
        ensures
            r.wf(),
            r == (FollowerGains { max_err_um, ..self }),
    {
        FollowerGains { max_err_um, ..self }
    }
}

/// The follower's cross-cycle controller state.
pub struct FollowerState {
    /// Accumulated position error along `x`, micrometers.
    pub i_x: i128,
    /// Accumulated position error along `y`, micrometers.
    pub i_y: i128,
    /// The previous cycle's pre-derivative command along `x`, milli.
    pub last_x: i128,
    /// The previous cycle's pre-derivative command along `y`, milli.
    pub last_y: i128,
}

impl FollowerState {
    /// State small enough for the controller arithmetic.
    pub open spec fn wf(self) -> bool {
        &&& -2_000_000_000_000_000 <= self.i_x <= 2_000_000_000_000_000
        &&& -2_000_000_000_000_000 <= self.i_y <= 2_000_000_000_000_000
        &&& -2_000_000_000_000_000 <= self.last_x <= 2_000_000_000_000_000
        &&& -2_000_000_000_000_000 <= self.last_y <= 2_000_000_000_000_000
    }

    /// A zeroed controller state for the start of a path.
    pub fn new() -> (r: FollowerState)
        ensures
            r.wf(),
            r.i_x == 0 && r.i_y == 0 && r.last_x == 0 && r.last_y == 0,
    {
        FollowerState { i_x: 0, i_y: 0, last_x: 0, last_y: 0 }
    }
}

/// One cycle's output of the follower: a body-frame motion request and the
/// completion flag.
#[derive(Clone, Copy, Debug, PartialEq, Eq, Structural)]
pub struct FollowerCommand {
    /// Forward request, milli-fraction, clamped to full scale.
    pub fwd: i64,
    /// Strafe request, milli-fraction, clamped to full scale.
    pub strafe: i64,
    /// Rotation request, milli-fraction, clamped to full scale.
    pub rot: i64,
    /// Whether the path is complete.
    pub done: bool,
}

/// Position error along `x` at `elapsed`: sample minus estimate.
pub open spec fn follow_err_x(s: Seq<PathSample>, elapsed: int, pos: Vec2) -> int {
    sample_spec(s, elapsed).x - pos.x
}

/// Position error along `y` at `elapsed`, alliance-mirrored.
pub open spec fn follow_err_y(s: Seq<PathSample>, elapsed: int, red: bool, pos: Vec2) -> int {
    m_y(sample_spec(s, elapsed), red) - pos.y
}

/// Heading error at `elapsed`: the negated sampled heading minus the
/// measured heading, wrapped into `(-180_000, 180_000]`.
pub open spec fn follow_err_heading(
    s: Seq<PathSample>,
    elapsed: int,
    red: bool,
    heading: int,
) -> int {
    wrap_half_up_spec(-m_heading(sample_spec(s, elapsed), red) - heading)
}

/// The larger coordinate of the position error.
pub open spec fn follow_err_cheb(s: Seq<PathSample>, elapsed: int, red: bool, pos: Vec2) -> int {
    max_spec(abs_spec(follow_err_x(s, elapsed, pos)), abs_spec(follow_err_y(s, elapsed, red, pos)))
}

/// The integral accumulator after this cycle: the error is added only while
/// the error is inside the integral-enable band.
pub open spec fn follow_integral(i_old: int, err: int, cheb: int, enable: int) -> int {
    if cheb < enable { i_old + err } else { i_old }
}

/// The pre-derivative command: proportional position feedback plus velocity,
/// acceleration and integral terms, all negated as the error is measured
/// from the robot toward the setpoint.  `vel` and `vel_next` are the sampled
/// velocity now and 20 ms ahead; acceleration is their finite difference.
pub open spec fn follow_base(
    err: int,
    vel: int,
    vel_next: int,
    i_new: int,
    g: FollowerGains,
    dt: int,
) -> int {
    div_trunc_spec(-(err * g.kp_drive), 1_000_000)
        + div_trunc_spec(-(vel * g.kf), 1_000_000)
        + div_trunc_spec(-(((vel_next - vel) * 50) * g.kfa), 1_000_000)
        + div_trunc_spec(div_trunc_spec(-(i_new * g.ki_drive), 1_000_000) * (dt * 9), 1_000)
}

/// The commanded speed after the derivative term on the command itself.
pub open spec fn follow_out(base: int, last: int, g: FollowerGains, dt: int) -> int {
    base + div_trunc_spec(div_trunc_spec(-((base - last) * g.kd_drive), 1_000_000) * (dt * 9),
        1_000)
}

/// The proportional heading command for a wrapped heading error.
pub open spec fn follow_rot(ea: int, g: FollowerGains) -> int {
    div_trunc_spec(ea * g.kp_turn * PI_MICRO, 180_000_000_000)
}

/// Whether the follower reports the path complete: the elapsed time must
/// exceed the path duration *and* the position error must be inside the
/// position tolerance *and* the heading error inside the heading tolerance,
/// all at once.
pub open spec fn follow_done(
    s: Seq<PathSample>,
    duration: int,
    elapsed: int,
    red: bool,
    pos: Vec2,
    heading: int,
    g: FollowerGains,
) -> bool {
    &&& elapsed > duration
    &&& follow_err_cheb(s, elapsed, red, pos) < g.max_err_um
    &&& abs_spec(follow_err_heading(s, elapsed, red, heading)) < g.max_heading_err_millideg
}

/// Multiply two bounded 128-bit values.
pub(crate) fn mul128(a: i128, b: i128) -> (r: i128)
    requires
        -1_000_000_000_000_000_000 <= a <= 1_000_000_000_000_000_000,
        -1_000_000_000_000_000_000 <= b <= 1_000_000_000_000_000_000,
    ensures
        r == a as int * b as int,
{
    proof {
        assert(-1_000_000_000_000_000_000_000_000_000_000_000_000
            <= a as int * b as int
            <= 1_000_000_000_000_000_000_000_000_000_000_000_000) by (nonlinear_arith)
            requires
                -1_000_000_000_000_000_000 <= a as int <= 1_000_000_000_000_000_000,
                -1_000_000_000_000_000_000 <= b as int <= 1_000_000_000_000_000_000;
    }
    a * b
}

/// Truncating division of a 128-bit value by a positive divisor.
pub(crate) fn div_trunc128(a: i128, b: i128) -> (r: i128)
    requires
        0 < b,
        -0x7FFF_FFFF_FFFF_FFFF_FFFF_FFFF_FFFF_FFFF <= a,
    ensures
        r == div_trunc_spec(a as int, b as int),
{
    if a >= 0 {
        a / b
    } else {
        proof {
            vstd::arithmetic::div_mod::lemma_div_pos_is_pos(-a as int, b as int);
            vstd::arithmetic::div_mod::lemma_fundamental_div_mod(-a as int, b as int);
            assert((-a as int) / (b as int) <= -a as int) by (nonlinear_arith)
                requires
                    0 < b as int,
                    0 <= -a as int,
                    -a as int == (b as int) * ((-a as int) / (b as int)) + (-a as int) % (
                    b as int),
                    0 <= (-a as int) % (b as int),
                    0 <= (-a as int) / (b as int);
        }
        -((-a) / b)
    }
}

/// Clamp a command to full scale and narrow it.
fn clamp_milli(v: i128) -> (r: i64)
    ensures
        r == clamp_milli_spec(v as int),
{
    if v > 100_000 {
        100_000
    } else if v < -100_000 {
        -100_000
    } else {
        v as i64
    }
}

/// Evaluate the pre-derivative command for one axis.
fn axis_base(err: i64, vel: i64, vel_next: i64, i_new: i128, g: &FollowerGains, dt: i64) -> (r:
    i128)
    requires
        -2_000_000_000_000 <= err <= 2_000_000_000_000,
        -SAMPLE_BOUND <= vel <= SAMPLE_BOUND,
        -SAMPLE_BOUND <= vel_next <= SAMPLE_BOUND,
        -2_100_000_000_000_000 <= i_new <= 2_100_000_000_000_000,
        g.wf(),
        0 <= dt <= 1000,
    ensures
        r == follow_base(err as int, vel as int, vel_next as int, i_new as int, *g, dt as int),
        -1_900_000_000_000_000 <= r <= 1_900_000_000_000_000,
{
    let p1 = mul128(err as i128, g.kp_drive as i128);
    proof {
        assert(-200_000_000_000_000_000 <= p1 <= 200_000_000_000_000_000) by (nonlinear_arith)
            requires
                p1 == err as int * (g.kp_drive as int),
                -2_000_000_000_000 <= err as int <= 2_000_000_000_000,
                0 <= g.kp_drive as int <= 100_000;
        lemma_div_trunc_cap(-(p1 as int), 1_000_000, 200_000_000_000);
    }
    let t1 = div_trunc128(-p1, 1_000_000);

    let p2 = mul128(vel as i128, g.kf as i128);
    proof {
        assert(-1_000_000_000_000_000 <= p2 <= 1_000_000_000_000_000) by (nonlinear_arith)
            requires
                p2 == vel as int * (g.kf as int),
                -10_000_000_000 <= vel as int <= 10_000_000_000,
                0 <= g.kf as int <= 100_000;
        lemma_div_trunc_cap(-(p2 as int), 1_000_000, 1_000_000_000);
    }
    let t2 = div_trunc128(-p2, 1_000_000);

    let acc = mul128((vel_next - vel) as i128, 50);
    let p3 = mul128(acc, g.kfa as i128);
    proof {
        assert(-100_000_000_000_000_000 <= p3 <= 100_000_000_000_000_000) by (nonlinear_arith)
            requires
                p3 == acc as int * (g.kfa as int),
                -1_000_000_000_000 <= acc as int <= 1_000_000_000_000,
                0 <= g.kfa as int <= 100_000;
        lemma_div_trunc_cap(-(p3 as int), 1_000_000, 100_000_000_000);
    }
    let t3 = div_trunc128(-p3, 1_000_000);

    let p4 = mul128(i_new, g.ki_drive as i128);
    proof {
        assert(-210_000_000_000_000_000_000 <= p4 <= 210_000_000_000_000_000_000)
            by (nonlinear_arith)
            requires
                p4 == i_new as int * (g.ki_drive as int),
                -2_100_000_000_000_000 <= i_new as int <= 2_100_000_000_000_000,
                0 <= g.ki_drive as int <= 100_000;
        lemma_div_trunc_cap(-(p4 as int), 1_000_000, 210_000_000_000_000);
    }
    let s1 = div_trunc128(-p4, 1_000_000);
    let dt9 = (dt as i128) * 9;
    let p5 = mul128(s1, dt9);
    proof {
        assert(-1_890_000_000_000_000_000 <= p5 <= 1_890_000_000_000_000_000)
            by (nonlinear_arith)
            requires
                p5 == s1 as int * (dt9 as int),
                -210_000_000_000_000 <= s1 as int <= 210_000_000_000_000,
                0 <= dt9 as int <= 9_000;
        lemma_div_trunc_cap(p5 as int, 1_000, 1_890_000_000_000_000);
    }
    let t4 = div_trunc128(p5, 1_000);

    t1 + t2 + t3 + t4
}

/// Apply the derivative term to one axis's command.
fn axis_out(base: i128, last: i128, g: &FollowerGains, dt: i64) -> (r: i128)
    requires
        -1_900_000_000_000_000 <= base <= 1_900_000_000_000_000,
        -2_000_000_000_000_000 <= last <= 2_000_000_000_000_000,
        g.wf(),
        0 <= dt <= 1000,
    ensures
        r == follow_out(base as int, last as int, *g, dt as int),
{
    let pd = mul128(base - last, g.kd_drive as i128);
    proof {
        assert(-390_000_000_000_000_000_000 <= pd <= 390_000_000_000_000_000_000)
            by (nonlinear_arith)
            requires
                pd == (base - last) as int * (g.kd_drive as int),
                -3_900_000_000_000_000 <= (base - last) as int <= 3_900_000_000_000_000,
                0 <= g.kd_drive as int <= 100_000;
        lemma_div_trunc_cap(-(pd as int), 1_000_000, 390_000_000_000_000);
    }
    let s2 = div_trunc128(-pd, 1_000_000);
    let dt9 = (dt as i128) * 9;
    let p6 = mul128(s2, dt9);
    proof {
        assert(-3_510_000_000_000_000_000 <= p6 <= 3_510_000_000_000_000_000)
            by (nonlinear_arith)
            requires
                p6 == s2 as int * (dt9 as int),
                -390_000_000_000_000 <= s2 as int <= 390_000_000_000_000,
                0 <= dt9 as int <= 9_000;
        lemma_div_trunc_cap(p6 as int, 1_000, 3_510_000_000_000_000);
    }
    base + div_trunc128(p6, 1_000)
}

/// One control cycle of the trajectory follower.
///
/// Samples the path at `elapsed_ms` (mirroring the sample for the red
/// alliance), compares it against the odometry position and measured
/// heading, updates the integral accumulator, and either reports the path
/// complete — only when the time has run out *and* both errors are inside
/// their tolerances — or emits the feedback-plus-feed-forward motion
/// request, clamped to full scale.
pub fn follow_step(
    path: &Trajectory,
    elapsed_ms: i64,
    dt_ms: i64,
    red: bool,
    position: Vec2,
    heading: i64,
    gains: &FollowerGains,
    state: &mut FollowerState,
) -> (r: FollowerCommand)
    requires
        path.wf(),
        0 <= elapsed_ms <= TIME_BOUND_MS,
        0 <= dt_ms <= 1000,
        -FOLLOW_POSITION_BOUND_UM <= position.x <= FOLLOW_POSITION_BOUND_UM,
        -FOLLOW_POSITION_BOUND_UM <= position.y <= FOLLOW_POSITION_BOUND_UM,
        -ANGLE_BOUND_MILLIDEG <= heading <= ANGLE_BOUND_MILLIDEG,
        gains.wf(),
        old(state).wf(),
    ensures
        r.done == follow_done(path.samples@, path.duration_spec(), elapsed_ms as int, red,
            position, heading as int, *gains),
        final(state).i_x == follow_integral(old(state).i_x as int,
            follow_err_x(path.samples@, elapsed_ms as int, position),
            follow_err_cheb(path.samples@, elapsed_ms as int, red, position),
            gains.integral_enable_um as int),
        final(state).i_y == follow_integral(old(state).i_y as int,
            follow_err_y(path.samples@, elapsed_ms as int, red, position),
            follow_err_cheb(path.samples@, elapsed_ms as int, red, position),
            gains.integral_enable_um as int),
        r.done ==> r.fwd == 0 && r.strafe == 0 && r.rot == 0
            && final(state).last_x == old(state).last_x
            && final(state).last_y == old(state).last_y,
        !r.done ==> {
            let s = path.samples@;
            let e = elapsed_ms as int;
            let bx = follow_base(follow_err_x(s, e, position),
                sample_spec(s, e).velocity_x as int,
                sample_spec(s, e + 20).velocity_x as int,
                follow_integral(old(state).i_x as int, follow_err_x(s, e, position),
                    follow_err_cheb(s, e, red, position), gains.integral_enable_um as int),
                *gains, dt_ms as int);
            let by = follow_base(follow_err_y(s, e, red, position),
                m_vy(sample_spec(s, e), red),
                m_vy(sample_spec(s, e + 20), red),
                follow_integral(old(state).i_y as int, follow_err_y(s, e, red, position),
                    follow_err_cheb(s, e, red, position), gains.integral_enable_um as int),
                *gains, dt_ms as int);
            &&& final(state).last_x == bx
            &&& final(state).last_y == by
            &&& r.fwd == clamp_milli_spec(follow_out(bx, old(state).last_x as int, *gains,
                dt_ms as int))
            &&& r.strafe == clamp_milli_spec(follow_out(by, old(state).last_y as int, *gains,
                dt_ms as int))
            &&& r.rot == clamp_milli_spec(follow_rot(
                follow_err_heading(s, e, red, heading as int), *gains))
        },
        gains.integral_enable_um == 0 ==> final(state).wf(),
{
    let ghost s = path.samples@;
    let sp = path.sample(elapsed_ms);
    let spn = path.sample(elapsed_ms + 20);

    let sp_y = if red { HALF_FIELD_WIDTH_UM - sp.y } else { sp.y };
    let sp_h = if red { -sp.heading } else { sp.heading };
    let sp_vy = if red { -sp.velocity_y } else { sp.velocity_y };
    let spn_vy = if red { -spn.velocity_y } else { spn.velocity_y };

    let ex = sp.x - position.x;
    let ey = sp_y - position.y;
    let w = wrap_half(-sp_h - heading);
    let ea = if w == -180_000 { 180_000 } else { w };

    let aex = if ex >= 0 { ex } else { -ex };
    let aey = if ey >= 0 { ey } else { -ey };
    let cheb = if aex >= aey { aex } else { aey };
    let aea = if ea >= 0 { ea } else { -ea };

    proof {
        assert(ex == follow_err_x(s, elapsed_ms as int, position));
        assert(ey == follow_err_y(s, elapsed_ms as int, red, position));
        assert(ea == follow_err_heading(s, elapsed_ms as int, red, heading as int));
        assert(cheb == follow_err_cheb(s, elapsed_ms as int, red, position));
    }

    if cheb < gains.integral_enable_um {
        state.i_x = state.i_x + ex as i128;
        state.i_y = state.i_y + ey as i128;
    }

    let duration = path.duration();
    if elapsed_ms > duration && cheb < gains.max_err_um && aea < gains.max_heading_err_millideg {
        return FollowerCommand { fwd: 0, strafe: 0, rot: 0, done: true };
    }

    let bx = axis_base(ex, sp.velocity_x, spn.velocity_x, state.i_x, gains, dt_ms);
    let by = axis_base(ey, sp_vy, spn_vy, state.i_y, gains, dt_ms);

    let out_x = axis_out(bx, state.last_x, gains, dt_ms);
    let out_y = axis_out(by, state.last_y, gains, dt_ms);
    state.last_x = bx;
    state.last_y = by;

    let pe = mul128(ea as i128, gains.kp_turn as i128);
    proof {
        assert(-18_000_000_000 <= pe <= 18_000_000_000) by (nonlinear_arith)
            requires
                pe == ea as int * (gains.kp_turn as int),
                -180_000 <= ea as int <= 180_000,
                0 <= gains.kp_turn as int <= 100_000;
    }
    let pe2 = mul128(pe, PI_MICRO as i128);
    let rot = div_trunc128(pe2, 180_000_000_000);

    FollowerCommand {
        fwd: clamp_milli(out_x),
        strafe: clamp_milli(out_y),
        rot: clamp_milli(rot),
        done: false,
    }
}

/// Interpolate one field; `t0 <= t < t1`.
fn lerp(a: i64, b: i64, t0: i64, t1: i64, t: i64) -> (r: i64)
    requires
        0 <= t0 < t1 <= TIME_BOUND_MS,
        t0 <= t < t1,
        -SAMPLE_BOUND <= a <= SAMPLE_BOUND,
        -SAMPLE_BOUND <= b <= SAMPLE_BOUND,
    ensures
        r == lerp_spec(a as int, b as int, t0 as int, t1 as int, t as int),
        a <= b ==> a <= r <= b,
        b < a ==> b <= r <= a,
{
    proof {
        assert(-200_000_000_000_000_000 <= (b - a) as int * ((t - t0) as int)
            <= 200_000_000_000_000_000) by (nonlinear_arith)
            requires
                0 <= (t - t0) as int,
                ((t - t0) as int) < 10_000_000,
                -20_000_000_000 <= (b - a) as int <= 20_000_000_000;
        if a <= b {
            assert(0 <= (b - a) as int * ((t - t0) as int) <= (t1 - t0) as int * ((b - a) as int))
                by (nonlinear_arith)
                requires
                    0 <= (t - t0) as int && ((t - t0) as int) < ((t1 - t0) as int),
                    0 <= (b - a) as int;
            lemma_div_trunc_cap((b - a) as int * ((t - t0) as int), (t1 - t0) as int,
                (b - a) as int);
            vstd::arithmetic::div_mod::lemma_div_pos_is_pos(
                (b - a) as int * ((t - t0) as int), (t1 - t0) as int);
        } else {
            assert(-((t1 - t0) as int * ((a - b) as int)) <= (b - a) as int * ((t - t0) as int)
                <= 0) by (nonlinear_arith)
                requires
                    0 <= (t - t0) as int && ((t - t0) as int) < ((t1 - t0) as int),
                    ((b - a) as int) < 0,
                    (a - b) as int == -((b - a) as int);
            lemma_div_trunc_cap((b - a) as int * ((t - t0) as int), (t1 - t0) as int,
                (a - b) as int);
            vstd::arithmetic::div_mod::lemma_div_pos_is_pos(
                -((b - a) as int * ((t - t0) as int)), (t1 - t0) as int);
        }
    }
    a + div_trunc((b - a) * (t - t0), t1 - t0)
}

} // verus!
