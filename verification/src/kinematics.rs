//! Swerve drivetrain kinematics: wheel states and the shortest-rotation
//! optimizer.
//!
//! A module state pairs a signed drive speed (milli-fraction, `1000` = full
//! motor speed) with a steering angle in millidegrees.  The optimizer replaces
//! a commanded state by the kinematically identical state that costs the
//! least steering travel from the measured wheel angle, inverting the drive
//! direction when the wheel would otherwise have to swing more than a quarter
//! turn.  The output angle keeps the measured angle's absolute winding.

use vstd::prelude::*;
use vstd::arithmetic::div_mod::{lemma_div_pos_is_pos, lemma_div_is_ordered};
use vstd::arithmetic::mul::lemma_mul_inequality;

use crate::angle::{
    wrap_half_spec, lemma_wrap_half_congruent, wrap_half, ANGLE_BOUND_MILLIDEG,
    HALF_TURN_MILLIDEG, QUARTER_TURN_MILLIDEG,
};
use crate::trig::{atan2_milli_spec, atan2_milli, isqrt};

verus! {

/// Drive speeds the core accepts, in milli-fraction; wide enough for any
/// pre-normalization magnitude the kinematics can produce.
pub const SPEED_BOUND_MILLI: i64 = 1_000_000_000;

/// One swerve module's commanded or measured state.
#[derive(Clone, Copy, Debug, PartialEq, Eq, Structural)]
pub struct ModuleState {
    /// Signed drive speed, milli-fraction of full motor speed.
    pub speed: i64,
    /// Steering azimuth in millidegrees, winding kept.
    pub angle: i64,
}

/// Signed shortest angular difference from `measured` to `target`,
/// in `[-180_000, 180_000)`.
pub open spec fn optimize_delta(target: int, measured: int) -> int {
    wrap_half_spec(target - measured)
}

/// Whether reaching `target` the short way requires inverting drive
/// direction: the wrapped difference exceeds a quarter turn.
pub open spec fn optimize_flips(target: int, measured: int) -> bool {
    optimize_delta(target, measured) > 90_000 || optimize_delta(target, measured) < -90_000
}

/// The steering angle the optimizer commands: the measured angle plus the
/// wrapped difference, shifted by a half turn when the drive inverts.
pub open spec fn optimize_angle_spec(target: int, measured: int) -> int {
    let delta = optimize_delta(target, measured);
    if optimize_flips(target, measured) {
        if delta > 0 {
            measured + (delta - 180_000)
        } else {
            measured + (delta + 180_000)
        }
    } else {
        measured + delta
    }
}

impl ModuleState {
    /// Angles and speed small enough for the optimizer's arithmetic.
    pub open spec fn in_bounds(self) -> bool {
        &&& -ANGLE_BOUND_MILLIDEG <= self.angle <= ANGLE_BOUND_MILLIDEG
        &&& -SPEED_BOUND_MILLI <= self.speed <= SPEED_BOUND_MILLI
    }

    /// Change this commanded state into the equivalent one closest to the
    /// measured state `other`.
    pub fn optimize(self, other: &ModuleState) -> (r: ModuleState)
        requires
            self.in_bounds(),
            other.in_bounds(),
        ensures
            r.angle == optimize_angle_spec(self.angle as int, other.angle as int),
            r.speed == if optimize_flips(self.angle as int, other.angle as int) {
                -self.speed as int
            } else {
                self.speed as int
            },
    {
        let mut difference = wrap_half(self.angle - other.angle);
        let mut speed = self.speed;

        if difference > QUARTER_TURN_MILLIDEG || difference < -QUARTER_TURN_MILLIDEG {
            speed = -speed;

            if difference > 0 {
                difference = difference - HALF_TURN_MILLIDEG;
            } else {
                difference = difference + HALF_TURN_MILLIDEG;
            }
        }

        ModuleState { speed, angle: other.angle + difference }
    }
}

/// The optimizer's output is kinematically identical to its target and never
/// more than a quarter turn of steering travel away from the measured angle:
/// with no drive inversion the output angle is the target angle up to whole
/// turns, and with inversion it is the target angle plus a half turn up to
/// whole turns.
pub proof fn lemma_optimize_equivalent(target: int, measured: int)
    ensures
        !optimize_flips(target, measured)
            ==> (optimize_angle_spec(target, measured) - target) % 360_000 == 0,
        optimize_flips(target, measured)
            ==> (optimize_angle_spec(target, measured) - (target + 180_000)) % 360_000 == 0,
        -90_000 <= optimize_angle_spec(target, measured) - measured <= 90_000,
{
    let delta = optimize_delta(target, measured);
    lemma_wrap_half_congruent(target - measured);
    let a = optimize_angle_spec(target, measured);
    if !optimize_flips(target, measured) {
        assert(a - target == delta - (target - measured));
    } else if delta > 0 {
        assert(a - (target + 180_000) == (delta - (target - measured)) - 360_000);
        lemma_shift_full_turn(delta - (target - measured));
    } else {
        assert(a - (target + 180_000) == delta - (target - measured));
    }
}

/// A planar vector; micrometers for positions, milli-fraction of
/// full motor speed for velocity requests.
#[derive(Clone, Copy, Debug, PartialEq, Eq, Structural)]
pub struct Vec2 {
    pub x: i64,
    pub y: i64,
}

/// Largest translation / rotation request `calculate` accepts,
/// milli-fraction.
pub const REQUEST_BOUND_MILLI: i64 = 100_000;

/// Largest module-position component, micrometers.
pub const POSITION_BOUND_UM: i64 = 1_000_000;

/// The integer square root of `n`: the greatest `r` with `r * r <= n`.
pub open spec fn int_sqrt(n: int) -> int {
    choose|r: int| 0 <= r && #[trigger] (r * r) <= n && n < (r + 1) * (r + 1)
}

/// The integer square root is exactly the witness satisfying its bounds.
pub proof fn lemma_int_sqrt_is(n: int, r: int)
    requires
        0 <= r,
        r * r <= n,
        n < (r + 1) * (r + 1),
    ensures
        int_sqrt(n) == r,
{
    assert(0 <= r && r * r <= n && n < (r + 1) * (r + 1));
    let s = int_sqrt(n);
    assert(0 <= s && s * s <= n && n < (s + 1) * (s + 1));
    if s < r {
        lemma_mul_inequality(s + 1, r, s + 1);
        lemma_mul_inequality(s + 1, r, r);
        assert(false);
    }
    if r < s {
        lemma_mul_inequality(r + 1, s, r + 1);
        lemma_mul_inequality(r + 1, s, s);
        assert(false);
    }
}

/// Division that truncates toward zero, as the drive hardware's fixed-point
/// arithmetic does; `b` must be positive.
pub open spec fn div_trunc_spec(a: int, b: int) -> int {
    if a >= 0 {
        a / b
    } else {
        -((-a) / b)
    }
}

/// Truncating division is odd in its numerator.
pub proof fn lemma_div_trunc_negate(a: int, b: int)
    requires
        0 < b,
    ensures
        div_trunc_spec(-a, b) == -div_trunc_spec(a, b),
{
    if a == 0 {
        vstd::arithmetic::div_mod::lemma_div_of0(b);
    }
}

/// A cap on the numerator caps the truncated quotient in magnitude.
pub proof fn lemma_div_trunc_cap(a: int, b: int, cap: int)
    requires
        0 < b,
        0 <= cap,
        -(b * cap) <= a <= b * cap,
    ensures
        -cap <= div_trunc_spec(a, b) <= cap,
{
    vstd::arithmetic::mul::lemma_mul_is_commutative(b, cap);
    if a >= 0 {
        lemma_div_pos_is_pos(a, b);
        lemma_div_is_ordered(a, b * cap, b);
        vstd::arithmetic::div_mod::lemma_fundamental_div_mod_converse(b * cap, b, cap, 0);
    } else {
        lemma_div_pos_is_pos(-a, b);
        lemma_div_is_ordered(-a, b * cap, b);
        vstd::arithmetic::div_mod::lemma_fundamental_div_mod_converse(b * cap, b, cap, 0);
    }
}

/// Truncating division of `a` by positive `b`.
pub fn div_trunc(a: i64, b: i64) -> (r: i64)
    requires
        0 < b,
        -0x7FFF_FFFF_FFFF_FFFF <= a,
    ensures
        r == div_trunc_spec(a as int, b as int),
{
    if a >= 0 {
        a / b
    } else {
        proof {
            lemma_div_pos_is_pos(-a as int, b as int);
            lemma_div_is_ordered(-a as int, -a as int + b, b as int);
            vstd::arithmetic::div_mod::lemma_fundamental_div_mod(-a as int, b as int);
            assert((-a as int) / (b as int) <= -a as int) by (nonlinear_arith)
                requires
                    0 < b as int,
                    0 <= -a as int,
                    -a as int == (b as int) * ((-a as int) / (b as int)) + (-a as int) % (b as int),
                    0 <= (-a as int) % (b as int),
                    0 <= (-a as int) / (b as int);
        }
        -((-a) / b)
    }
}

/// Squared length of the module position `p`.
pub open spec fn pos_norm_sq(p: Vec2) -> int {
    p.x * p.x + p.y * p.y
}

/// First component of the unit vector along `p` rotated a quarter turn
/// clockwise, scaled by `TRIG_SCALE`.
pub open spec fn unit_perp_x(p: Vec2) -> int {
    div_trunc_spec(p.y * 1_000_000, int_sqrt(pos_norm_sq(p)))
}

/// Second component of the same rotated unit vector.
pub open spec fn unit_perp_y(p: Vec2) -> int {
    div_trunc_spec(-p.x * 1_000_000, int_sqrt(pos_norm_sq(p)))
}

/// First component of the wheel velocity vector for module position `p`
/// under translation request `t` and rotation request `rot`, milli-fraction.
pub open spec fn wheel_vx(p: Vec2, t: Vec2, rot: int) -> int {
    t.x + div_trunc_spec(unit_perp_x(p) * rot, 1_000_000)
}

/// Second component of the wheel velocity vector.
pub open spec fn wheel_vy(p: Vec2, t: Vec2, rot: int) -> int {
    t.y + div_trunc_spec(unit_perp_y(p) * rot, 1_000_000)
}

/// Magnitude of the wheel velocity vector, milli-fraction.
pub open spec fn wheel_mag(p: Vec2, t: Vec2, rot: int) -> int {
    int_sqrt(
        wheel_vx(p, t, rot) * wheel_vx(p, t, rot) + wheel_vy(p, t, rot) * wheel_vy(p, t, rot),
    )
}

/// Largest wheel magnitude over a set of module positions.
pub open spec fn max_wheel_mag(ps: Seq<Vec2>, t: Vec2, rot: int) -> int
    decreases ps.len(),
{
    if ps.len() == 0 {
        0
    } else {
        let m = max_wheel_mag(ps.drop_last(), t, rot);
        if wheel_mag(ps.last(), t, rot) > m {
            wheel_mag(ps.last(), t, rot)
        } else {
            m
        }
    }
}

/// The swerve drivetrain's fixed module geometry.
pub struct Swerve {
    /// Offsets of the four modules from the robot center, micrometers.
    pub positions: Vec<Vec2>,
}

impl Swerve {
    /// Every module position is nonzero and within the accepted range.
    pub open spec fn wf(self) -> bool {
        forall|i: int| 0 <= i < self.positions@.len() ==> {
            let p = #[trigger] self.positions@[i];
            &&& -POSITION_BOUND_UM <= p.x <= POSITION_BOUND_UM
            &&& -POSITION_BOUND_UM <= p.y <= POSITION_BOUND_UM
            &&& !(p.x == 0 && p.y == 0)
        }
    }

    /// Module geometry for a rectangular chassis: four modules at the
    /// corners, listed front-right, front-left, back-left, back-right.
    pub fn rectangle(width_um: i64, height_um: i64) -> (r: Swerve)
        requires
            2 <= width_um <= POSITION_BOUND_UM,
            2 <= height_um <= POSITION_BOUND_UM,
        ensures
            r.wf(),
            r.positions@.len() == 4,
            r.positions@[0].x == width_um / 2 && r.positions@[0].y == height_um / 2,
            r.positions@[1].x == -(width_um / 2) && r.positions@[1].y == height_um / 2,
            r.positions@[2].x == -(width_um / 2) && r.positions@[2].y == -(height_um / 2),
            r.positions@[3].x == width_um / 2 && r.positions@[3].y == -(height_um / 2),
    {
        let x = width_um / 2;
        let y = height_um / 2;
        let mut positions: Vec<Vec2> = Vec::new();
        positions.push(Vec2 { x, y });
        positions.push(Vec2 { x: -x, y });
        positions.push(Vec2 { x: -x, y: -y });
        positions.push(Vec2 { x, y: -y });
        Swerve { positions }
    }
}

/// Every nonnegative integer has an integer square root.
pub proof fn lemma_int_sqrt_exists(n: int)
    requires
        0 <= n,
    ensures
        0 <= int_sqrt(n),
        int_sqrt(n) * int_sqrt(n) <= n,
        n < (int_sqrt(n) + 1) * (int_sqrt(n) + 1),
    decreases n,
{
    if n == 0 {
        lemma_int_sqrt_is(0, 0);
    } else {
        lemma_int_sqrt_exists(n - 1);
        let r = int_sqrt(n - 1);
        if n < (r + 1) * (r + 1) {
            lemma_int_sqrt_is(n, r);
        } else {
            assert(n == (r + 1) * (r + 1));
            assert((r + 1) * (r + 1) < (r + 2) * (r + 2)) by (nonlinear_arith)
                requires r >= 0;
            lemma_int_sqrt_is(n, r + 1);
        }
        assert(int_sqrt(n) * int_sqrt(n) <= n);
    }
}

impl Swerve {
    /// Compute the four wheel states for a body-frame motion request.
    ///
    /// `transform` is the requested translation (`x` right, `y` forward) and
    /// `rotation` the requested clockwise rotation rate, all in
    /// milli-fraction of full motor speed.  Each module's velocity vector is
    /// the translation plus the rotation rate times the quarter-turn-rotated
    /// unit vector toward the module; the returned speed is its magnitude
    /// and the returned angle its azimuth.  If any magnitude exceeds full
    /// scale, all are divided by the largest, preserving their ratios, so
    /// that no returned speed magnitude exceeds `1000`.
    pub fn calculate(&self, transform: Vec2, rotation: i64) -> (r: Vec<ModuleState>)
        requires
            self.wf(),
            -REQUEST_BOUND_MILLI <= transform.x <= REQUEST_BOUND_MILLI,
            -REQUEST_BOUND_MILLI <= transform.y <= REQUEST_BOUND_MILLI,
            -REQUEST_BOUND_MILLI <= rotation <= REQUEST_BOUND_MILLI,
        ensures
            r@.len() == self.positions@.len(),
            forall|i: int| 0 <= i < r@.len() ==> (#[trigger] r@[i]).angle == atan2_milli_spec(
                wheel_vx(self.positions@[i], transform, rotation as int),
                wheel_vy(self.positions@[i], transform, rotation as int),
            ),
            forall|i: int| 0 <= i < r@.len() ==> (#[trigger] r@[i]).speed == {
                let m = max_wheel_mag(self.positions@, transform, rotation as int);
                if m > 1000 {
                    wheel_mag(self.positions@[i], transform, rotation as int) * 1000 / m
                } else {
                    wheel_mag(self.positions@[i], transform, rotation as int)
                }
            },
            forall|i: int| 0 <= i < r@.len() ==> 0 <= (#[trigger] r@[i]).speed <= 1000,
    {
        let ghost t = transform;
        let ghost rot = rotation as int;
        let n_modules = self.positions.len();

        let mut mags: Vec<i64> = Vec::new();
        let mut angles: Vec<i64> = Vec::new();
        let mut i: usize = 0;
        while i < n_modules
            invariant
                n_modules == self.positions@.len(),
                self.wf(),
                -REQUEST_BOUND_MILLI <= transform.x <= REQUEST_BOUND_MILLI,
                -REQUEST_BOUND_MILLI <= transform.y <= REQUEST_BOUND_MILLI,
                -REQUEST_BOUND_MILLI <= rotation <= REQUEST_BOUND_MILLI,
                t == transform,
                rot == rotation as int,
                i <= n_modules,
                mags@.len() == i,
                angles@.len() == i,
                forall|j: int| 0 <= j < i ==> #[trigger] mags@[j]
                    == wheel_mag(self.positions@[j], t, rot),
                forall|j: int| 0 <= j < i ==> 0 <= #[trigger] mags@[j] <= 300_000,
                forall|j: int| 0 <= j < i ==> #[trigger] angles@[j] == atan2_milli_spec(
                    wheel_vx(self.positions@[j], t, rot),
                    wheel_vy(self.positions@[j], t, rot),
                ),
            decreases n_modules - i,
        {
            let p = self.positions[i];
            proof {
                assert(0 <= p.x * p.x <= 1_000_000_000_000) by (nonlinear_arith)
                    requires -1_000_000 <= p.x as int <= 1_000_000;
                assert(0 <= p.y * p.y <= 1_000_000_000_000) by (nonlinear_arith)
                    requires -1_000_000 <= p.y as int <= 1_000_000;
                assert(p.x * p.x >= 1 || p.y * p.y >= 1) by (nonlinear_arith)
                    requires !(p.x as int == 0 && p.y as int == 0);
            }
            let sq: u64 = (p.x * p.x + p.y * p.y) as u64;
            let n = isqrt(sq);
            proof {
                lemma_int_sqrt_is(sq as int, n as int);
                assert(n >= 1) by (nonlinear_arith)
                    requires
                        (sq as int) < (n as int + 1) * (n as int + 1),
                        sq >= 1,
                        n >= 0;
                assert(n <= 1_500_000) by (nonlinear_arith)
                    requires
                        n as int * (n as int) <= sq as int,
                        sq <= 2_000_000_000_000,
                        n >= 0;
                assert(p.y as int * (p.y as int) <= sq as int);
                assert(-(n as int) <= p.y as int <= n as int) by (nonlinear_arith)
                    requires
                        p.y as int * (p.y as int) <= sq as int,
                        (sq as int) < (n as int + 1) * (n as int + 1),
                        n >= 0;
                assert(p.x as int * (p.x as int) <= sq as int);
                assert(-(n as int) <= p.x as int <= n as int) by (nonlinear_arith)
                    requires
                        p.x as int * (p.x as int) <= sq as int,
                        (sq as int) < (n as int + 1) * (n as int + 1),
                        n >= 0;
            }
            let nd = n as i64;
            proof {
                assert(-(nd as int * 1_000_000) <= p.y as int * 1_000_000 <= nd as int * 1_000_000)
                    by (nonlinear_arith)
                    requires -(nd as int) <= p.y as int <= nd as int, nd >= 1;
                assert(-(nd as int * 1_000_000) <= -p.x as int * 1_000_000 <= nd as int * 1_000_000)
                    by (nonlinear_arith)
                    requires -(nd as int) <= p.x as int <= nd as int, nd >= 1;
                lemma_div_trunc_cap(p.y as int * 1_000_000, nd as int, 1_000_000);
                lemma_div_trunc_cap(-p.x as int * 1_000_000, nd as int, 1_000_000);
            }
            let ux = div_trunc(p.y * 1_000_000, nd);
            let uy = div_trunc(-p.x * 1_000_000, nd);
            proof {
                assert(-(1_000_000 * 100_000int) <= ux as int * rotation as int
                    <= 1_000_000 * 100_000int) by (nonlinear_arith)
                    requires
                        -1_000_000 <= ux as int <= 1_000_000,
                        -100_000 <= rotation as int <= 100_000;
                assert(-(1_000_000 * 100_000int) <= uy as int * rotation as int
                    <= 1_000_000 * 100_000int) by (nonlinear_arith)
                    requires
                        -1_000_000 <= uy as int <= 1_000_000,
                        -100_000 <= rotation as int <= 100_000;
                lemma_div_trunc_cap(ux as int * rotation as int, 1_000_000, 100_000);
                lemma_div_trunc_cap(uy as int * rotation as int, 1_000_000, 100_000);
            }
            let vx = transform.x + div_trunc(ux * rotation, 1_000_000);
            let vy = transform.y + div_trunc(uy * rotation, 1_000_000);
            proof {
                assert(vx == wheel_vx(p, t, rot));
                assert(vy == wheel_vy(p, t, rot));
                assert(0 <= vx as int * (vx as int) <= 40_000_000_000) by (nonlinear_arith)
                    requires -200_000 <= vx as int <= 200_000;
                assert(0 <= vy as int * (vy as int) <= 40_000_000_000) by (nonlinear_arith)
                    requires -200_000 <= vy as int <= 200_000;
            }
            let vsq: u64 = (vx * vx + vy * vy) as u64;
            let m = isqrt(vsq);
            proof {
                lemma_int_sqrt_is(vsq as int, m as int);
                assert(m <= 300_000) by (nonlinear_arith)
                    requires
                        m as int * (m as int) <= vsq as int,
                        vsq <= 80_000_000_000,
                        m >= 0;
                assert(m as int == wheel_mag(p, t, rot));
            }
            let angle = atan2_milli(vx, vy);
            mags.push(m as i64);
            angles.push(angle);
            i = i + 1;
        }

        let mut max_m: i64 = 0;
        let mut i: usize = 0;
        proof {
            assert(self.positions@.take(0) =~= Seq::<Vec2>::empty());
        }
        while i < n_modules
            invariant
                n_modules == self.positions@.len(),
                mags@.len() == n_modules,
                t == transform,
                rot == rotation as int,
                i <= n_modules,
                forall|j: int| 0 <= j < n_modules ==> #[trigger] mags@[j]
                    == wheel_mag(self.positions@[j], t, rot),
                forall|j: int| 0 <= j < n_modules ==> 0 <= #[trigger] mags@[j] <= 300_000,
                max_m == max_wheel_mag(self.positions@.take(i as int), t, rot),
                0 <= max_m <= 300_000,
                forall|j: int| 0 <= j < i ==> #[trigger] mags@[j] <= max_m,
            decreases n_modules - i,
        {
            proof {
                assert(self.positions@.take(i + 1).drop_last() =~= self.positions@.take(i as int));
                assert(self.positions@.take(i + 1).last() == self.positions@[i as int]);
            }
            if mags[i] > max_m {
                max_m = mags[i];
            }
            i = i + 1;
        }
        proof {
            assert(self.positions@.take(n_modules as int) =~= self.positions@);
        }

        let ghost maxspec = max_wheel_mag(self.positions@, t, rot);
        let mut out: Vec<ModuleState> = Vec::new();
        let mut i: usize = 0;
        while i < n_modules
            invariant
                n_modules == self.positions@.len(),
                mags@.len() == n_modules,
                angles@.len() == n_modules,
                t == transform,
                rot == rotation as int,
                i <= n_modules,
                out@.len() == i,
                maxspec == max_wheel_mag(self.positions@, t, rot),
                max_m == maxspec,
                0 <= max_m <= 300_000,
                forall|j: int| 0 <= j < n_modules ==> #[trigger] mags@[j]
                    == wheel_mag(self.positions@[j], t, rot),
                forall|j: int| 0 <= j < n_modules ==> 0 <= #[trigger] mags@[j] <= max_m,
                forall|j: int| 0 <= j < n_modules ==> #[trigger] angles@[j] == atan2_milli_spec(
                    wheel_vx(self.positions@[j], t, rot),
                    wheel_vy(self.positions@[j], t, rot),
                ),
                forall|j: int| 0 <= j < i ==> (#[trigger] out@[j]).angle == angles@[j],
                forall|j: int| 0 <= j < i ==> (#[trigger] out@[j]).speed == if maxspec > 1000 {
                    wheel_mag(self.positions@[j], t, rot) * 1000 / maxspec
                } else {
                    wheel_mag(self.positions@[j], t, rot)
                },
                forall|j: int| 0 <= j < i ==> 0 <= (#[trigger] out@[j]).speed <= 1000,
            decreases n_modules - i,
        {
            let speed = if max_m > 1000 {
                proof {
                    lemma_div_pos_is_pos(mags@[i as int] * 1000, max_m as int);
                    lemma_div_is_ordered(mags@[i as int] * 1000, max_m as int * 1000, max_m as int);
                    vstd::arithmetic::mul::lemma_mul_is_commutative(max_m as int, 1000);
                    vstd::arithmetic::div_mod::lemma_fundamental_div_mod_converse(
                        max_m as int * 1000, max_m as int, 1000, 0);
                }
                mags[i] * 1000 / max_m
            } else {
                mags[i]
            };
            out.push(ModuleState { speed, angle: angles[i] });
            i = i + 1;
        }
        out
    }
}

/// A nonzero position has a positive norm square and a positive root.
proof fn lemma_pos_norm(p: Vec2)
    requires
        !(p.x == 0 && p.y == 0),
    ensures
        1 <= pos_norm_sq(p),
        1 <= int_sqrt(pos_norm_sq(p)),
        int_sqrt(pos_norm_sq(p)) * int_sqrt(pos_norm_sq(p)) <= pos_norm_sq(p),
{
    assert(pos_norm_sq(p) >= 1) by (nonlinear_arith)
        requires
            pos_norm_sq(p) == p.x * p.x + p.y * p.y,
            !(p.x == 0 && p.y == 0);
    lemma_int_sqrt_exists(pos_norm_sq(p));
    let n = int_sqrt(pos_norm_sq(p));
    assert(n >= 1) by (nonlinear_arith)
        requires
            pos_norm_sq(p) < (n + 1) * (n + 1),
            pos_norm_sq(p) >= 1,
            n >= 0;
}

/// Under a pure rotation request, two module positions that are mirror
/// images of each other (in either axis or both) see wheel velocity vectors
/// of exactly equal magnitude: the normalizer treats every corner of a
/// rectangular chassis alike and turning in place is never starved.
pub proof fn lemma_pure_rotation_mirrored(p: Vec2, q: Vec2, t: Vec2, rot: int)
    requires
        t.x == 0 && t.y == 0,
        !(p.x == 0 && p.y == 0),
        q.x == p.x || q.x == -p.x,
        q.y == p.y || q.y == -p.y,
    ensures
        wheel_mag(q, t, rot) == wheel_mag(p, t, rot),
{
    assert(q.x * q.x == p.x * p.x) by (nonlinear_arith)
        requires q.x == p.x || q.x == -p.x;
    assert(q.y * q.y == p.y * p.y) by (nonlinear_arith)
        requires q.y == p.y || q.y == -p.y;
    assert(pos_norm_sq(q) == pos_norm_sq(p));
    lemma_pos_norm(p);
    let n = int_sqrt(pos_norm_sq(p));

    let upx = unit_perp_x(p);
    let upy = unit_perp_y(p);
    if q.y == -p.y && q.y != p.y {
        lemma_div_trunc_negate(p.y * 1_000_000, n);
        assert(unit_perp_x(q) == -upx);
    } else {
        assert(unit_perp_x(q) == upx);
    }
    if q.x == -p.x && q.x != p.x {
        lemma_div_trunc_negate(-p.x * 1_000_000, n);
        assert(unit_perp_y(q) == -upy);
    } else {
        assert(unit_perp_y(q) == upy);
    }

    assert((-upx) * rot == -(upx * rot)) by (nonlinear_arith);
    assert((-upy) * rot == -(upy * rot)) by (nonlinear_arith);
    lemma_div_trunc_negate(upx * rot, 1_000_000);
    lemma_div_trunc_negate(upy * rot, 1_000_000);
    assert(wheel_vx(q, t, rot) == wheel_vx(p, t, rot)
        || wheel_vx(q, t, rot) == -wheel_vx(p, t, rot));
    assert(wheel_vy(q, t, rot) == wheel_vy(p, t, rot)
        || wheel_vy(q, t, rot) == -wheel_vy(p, t, rot));
    assert(wheel_vx(q, t, rot) * wheel_vx(q, t, rot)
        == wheel_vx(p, t, rot) * wheel_vx(p, t, rot)) by (nonlinear_arith)
        requires
            wheel_vx(q, t, rot) == wheel_vx(p, t, rot)
                || wheel_vx(q, t, rot) == -wheel_vx(p, t, rot);
    assert(wheel_vy(q, t, rot) * wheel_vy(q, t, rot)
        == wheel_vy(p, t, rot) * wheel_vy(p, t, rot)) by (nonlinear_arith)
        requires
            wheel_vy(q, t, rot) == wheel_vy(p, t, rot)
                || wheel_vy(q, t, rot) == -wheel_vy(p, t, rot);
}

/// On a rectangular chassis — four modules at mirrored corners, as
/// `rectangle` builds — a pure rotation request gives all four wheels
/// exactly the same speed magnitude, so the normalizer can never starve
/// turning in place.
pub proof fn lemma_rectangle_pure_rotation_equal(s: Swerve, t: Vec2, rot: int)
    requires
        t.x == 0 && t.y == 0,
        s.positions@.len() == 4,
        !(s.positions@[0].x == 0 && s.positions@[0].y == 0),
        s.positions@[1].x == -s.positions@[0].x && s.positions@[1].y == s.positions@[0].y,
        s.positions@[2].x == -s.positions@[0].x && s.positions@[2].y == -s.positions@[0].y,
        s.positions@[3].x == s.positions@[0].x && s.positions@[3].y == -s.positions@[0].y,
    ensures
        wheel_mag(s.positions@[1], t, rot) == wheel_mag(s.positions@[0], t, rot),
        wheel_mag(s.positions@[2], t, rot) == wheel_mag(s.positions@[0], t, rot),
        wheel_mag(s.positions@[3], t, rot) == wheel_mag(s.positions@[0], t, rot),
{
    lemma_pure_rotation_mirrored(s.positions@[0], s.positions@[1], t, rot);
    lemma_pure_rotation_mirrored(s.positions@[0], s.positions@[2], t, rot);
    lemma_pure_rotation_mirrored(s.positions@[0], s.positions@[3], t, rot);
}

/// Truncating division lands within one divisor of the exact quotient.
proof fn lemma_div_trunc_err(a: int, b: int)
    requires
        0 < b,
    ensures
        -b < b * div_trunc_spec(a, b) - a < b,
{
    if a >= 0 {
        vstd::arithmetic::div_mod::lemma_fundamental_div_mod(a, b);
        vstd::arithmetic::div_mod::lemma_mod_pos_bound(a, b);
    } else {
        vstd::arithmetic::div_mod::lemma_fundamental_div_mod(-a, b);
        vstd::arithmetic::div_mod::lemma_mod_pos_bound(-a, b);
        assert(b * div_trunc_spec(a, b) - a == (-a) - b * ((-a) / b)) by (nonlinear_arith)
            requires div_trunc_spec(a, b) == -((-a) / b);
    }
}

/// On any chassis, a pure rotation request drives each wheel perpendicular
/// to its radius up to the fixed-point truncation: the dot product of the
/// wheel velocity with the module position, scaled by `TRIG_SCALE`, is
/// smaller than the sum of the position's coordinate magnitudes times the
/// scale plus the rotation rate.  At full rotation that is a relative
/// angular error well under a tenth of a degree.
pub proof fn lemma_pure_rotation_near_perpendicular(p: Vec2, t: Vec2, rot: int)
    requires
        t.x == 0 && t.y == 0,
        !(p.x == 0 && p.y == 0),
    ensures
        ({
            let ax = if p.x >= 0 { p.x as int } else { -p.x as int };
            let ay = if p.y >= 0 { p.y as int } else { -p.y as int };
            let rm = if rot >= 0 { rot } else { -rot };
            let d = wheel_vx(p, t, rot) * p.x + wheel_vy(p, t, rot) * p.y;
            -((ax + ay) * (1_000_000 + rm)) < 1_000_000 * d < (ax + ay) * (1_000_000 + rm)
        }),
{
    let ax = if p.x >= 0 { p.x as int } else { -p.x as int };
    let ay = if p.y >= 0 { p.y as int } else { -p.y as int };
    let rm = if rot >= 0 { rot } else { -rot };
    lemma_pos_norm(p);
    let n = int_sqrt(pos_norm_sq(p));
    let ux = unit_perp_x(p);
    let uy = unit_perp_y(p);
    lemma_div_trunc_err(p.y * 1_000_000, n);
    lemma_div_trunc_err(-p.x * 1_000_000, n);
    let e1 = n * ux - p.y * 1_000_000;
    let e2 = n * uy + p.x * 1_000_000;
    assert(n * (ux * p.x + uy * p.y) == e1 * p.x + e2 * p.y) by (nonlinear_arith)
        requires
            e1 == n * ux - p.y * 1_000_000,
            e2 == n * uy + p.x * 1_000_000;
    assert(-(n * (ax + ay)) <= e1 * p.x + e2 * p.y <= n * (ax + ay)) by (nonlinear_arith)
        requires
            -n <= e1 <= n,
            -n <= e2 <= n,
            ax == (if p.x >= 0 { p.x as int } else { -p.x as int }),
            ay == (if p.y >= 0 { p.y as int } else { -p.y as int }),
            0 < n;
    let u_dot = ux * p.x + uy * p.y;
    assert(-(ax + ay) <= u_dot <= ax + ay) by (nonlinear_arith)
        requires
            n * u_dot == e1 * p.x + e2 * p.y,
            -(n * (ax + ay)) <= e1 * p.x + e2 * p.y <= n * (ax + ay),
            0 < n,
            0 <= ax + ay;

    let vx = wheel_vx(p, t, rot);
    let vy = wheel_vy(p, t, rot);
    lemma_div_trunc_err(ux * rot, 1_000_000);
    lemma_div_trunc_err(uy * rot, 1_000_000);
    let f1 = 1_000_000 * vx - ux * rot;
    let f2 = 1_000_000 * vy - uy * rot;
    let d = vx * p.x + vy * p.y;
    assert(1_000_000 * d == rot * u_dot + f1 * p.x + f2 * p.y) by (nonlinear_arith)
        requires
            f1 == 1_000_000 * vx - ux * rot,
            f2 == 1_000_000 * vy - uy * rot,
            u_dot == ux * p.x + uy * p.y,
            d == vx * p.x + vy * p.y;
    assert(-(rm * (ax + ay)) <= rot * u_dot <= rm * (ax + ay)) by (nonlinear_arith)
        requires
            -(ax + ay) <= u_dot <= ax + ay,
            rm == (if rot >= 0 { rot } else { -rot }),
            0 <= ax + ay;
    assert(-(1_000_000 * (ax + ay)) < f1 * p.x + f2 * p.y < 1_000_000 * (ax + ay))
        by (nonlinear_arith)
        requires
            -1_000_000 < f1 < 1_000_000,
            -1_000_000 < f2 < 1_000_000,
            ax == (if p.x >= 0 { p.x as int } else { -p.x as int }),
            ay == (if p.y >= 0 { p.y as int } else { -p.y as int }),
            0 < ax + ay;
    assert(-((ax + ay) * (1_000_000 + rm)) < 1_000_000 * d < (ax + ay) * (1_000_000 + rm))
        by (nonlinear_arith)
        requires
            1_000_000 * d == rot * u_dot + f1 * p.x + f2 * p.y,
            -(rm * (ax + ay)) <= rot * u_dot <= rm * (ax + ay),
            -(1_000_000 * (ax + ay)) < f1 * p.x + f2 * p.y < 1_000_000 * (ax + ay),
            0 <= rm;
}

/// On a square chassis, a pure rotation request drives each wheel exactly
/// perpendicular to the radius from the robot center to that wheel: the
/// wheel velocity's dot product with the module position is zero, so the
/// commanded angle is a quarter turn away from the radial direction.
pub proof fn lemma_pure_rotation_perpendicular(p: Vec2, t: Vec2, rot: int)
    requires
        t.x == 0 && t.y == 0,
        p.x == p.y || p.x == -p.y,
        !(p.x == 0 && p.y == 0),
    ensures
        wheel_vx(p, t, rot) * p.x + wheel_vy(p, t, rot) * p.y == 0,
{
    lemma_pos_norm(p);
    let n = int_sqrt(pos_norm_sq(p));
    let a = p.x as int;
    let u = div_trunc_spec(a * 1_000_000, n);
    let r = div_trunc_spec(u * rot, 1_000_000);
    if p.x == p.y {
        assert(unit_perp_x(p) == u);
        lemma_div_trunc_negate(a * 1_000_000, n);
        assert(unit_perp_y(p) == -u);
        assert((-u) * rot == -(u * rot)) by (nonlinear_arith);
        lemma_div_trunc_negate(u * rot, 1_000_000);
        assert(wheel_vx(p, t, rot) == r);
        assert(wheel_vy(p, t, rot) == -r);
        assert(r * a + (-r) * a == 0) by (nonlinear_arith);
    } else {
        assert(p.y == -a);
        assert((-a) * 1_000_000 == -(a * 1_000_000));
        lemma_div_trunc_negate(a * 1_000_000, n);
        assert(unit_perp_x(p) == -u);
        assert(unit_perp_y(p) == -u);
        assert((-u) * rot == -(u * rot)) by (nonlinear_arith);
        lemma_div_trunc_negate(u * rot, 1_000_000);
        assert(wheel_vx(p, t, rot) == -r);
        assert(wheel_vy(p, t, rot) == -r);
        assert((-r) * a + (-r) * (-a) == 0) by (nonlinear_arith);
    }
}

/// Subtracting a full turn does not change divisibility by a full turn.
proof fn lemma_shift_full_turn(x: int)
    ensures
        x % 360_000 == 0 ==> (x - 360_000) % 360_000 == 0,
{
    if x % 360_000 == 0 {
        assert(x == 360_000 * (x / 360_000)) by (nonlinear_arith)
            requires x % 360_000 == 0;
        assert(x - 360_000 == 360_000 * (x / 360_000 - 1)) by (nonlinear_arith)
            requires x == 360_000 * (x / 360_000);
        assert(360_000 * (x / 360_000 - 1) % 360_000 == 0) by (nonlinear_arith);
    }
}

} // verus!
