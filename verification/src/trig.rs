//! Integer trigonometry for the kinematics and odometry.
//!
//! All ratios are scaled by `1_000_000`; angles are millidegrees.  Sine uses
//! the classical rational approximation `sin x = 4x(180-x) / (40500 - x(180-x))`
//! (x in degrees on `[0, 180]`), which is exact at every multiple of a
//! quarter turn; the inverse tangent uses the quadratic approximation
//! `atan t = 45t + 15643/10^6 * t(1-t)` degrees on `t in [0, 1]`, exact at the
//! axes and the diagonals.  Both are total, deterministic integer functions:
//! their defining formulas are the specification.

use vstd::prelude::*;
use vstd::arithmetic::div_mod::{
    lemma_div_pos_is_pos, lemma_div_is_ordered, lemma_fundamental_div_mod_converse,
};
use vstd::arithmetic::mul::lemma_mul_is_commutative;

use crate::angle::ANGLE_BOUND_MILLIDEG;

verus! {

/// Scale of trigonometric ratios: this value stands for 1.0.
pub const TRIG_SCALE: i64 = 1_000_000;

/// Largest vector component `atan2_milli` accepts.
pub const COORD_BOUND: i64 = 2_000_000_000_000;

/// Bounds of a quotient with nonnegative numerator: if the numerator is at
/// most `den * cap`, the quotient is at most `cap`.
proof fn lemma_div_cap(num: int, den: int, cap: int)
    requires
        0 <= num,
        0 < den,
        num <= den * cap,
    ensures
        0 <= num / den <= cap,
{
    lemma_div_pos_is_pos(num, den);
    lemma_div_is_ordered(num, den * cap, den);
    lemma_mul_is_commutative(den, cap);
    lemma_fundamental_div_mod_converse(den * cap, den, cap, 0);
}

/// Euclidean remainder of a millidegree angle by a full turn, in
/// `[0, 360_000)`.
pub open spec fn mod_full_spec(a: int) -> int {
    a % 360_000
}

/// Reduce an angle to `[0, 360_000)` millidegrees.
pub fn mod_full(a: i64) -> (r: i64)
    requires
        -ANGLE_BOUND_MILLIDEG * 4 <= a <= ANGLE_BOUND_MILLIDEG * 4,
    ensures
        r == mod_full_spec(a as int),
        0 <= r < 360_000,
{
    if a >= 0 {
        a % 360_000
    } else {
        let m = (-a) % 360_000;
        proof {
            lemma_mod_negate_full(a as int);
        }
        if m == 0 { 0 } else { 360_000 - m }
    }
}

/// Relates the Euclidean remainders of `t` and `-t` for a full turn.
proof fn lemma_mod_negate_full(t: int)
    ensures
        (-t) % 360_000 == 0 ==> t % 360_000 == 0,
        (-t) % 360_000 != 0 ==> t % 360_000 == 360_000 - (-t) % 360_000,
{
    let m = (-t) % 360_000;
    assert((-t) % 360_000 == (-t) - 360_000 * ((-t) / 360_000)) by (nonlinear_arith);
    if m == 0 {
        assert(t == 360_000 * (-((-t) / 360_000)));
        assert(t % 360_000 == 0) by (nonlinear_arith)
            requires t == 360_000 * (-((-t) / 360_000));
    } else {
        assert(t == 360_000 * (-1 - (-t) / 360_000) + (360_000 - m));
        assert(t % 360_000 == 360_000 - m) by (nonlinear_arith)
            requires
                t == 360_000 * (-1 - (-t) / 360_000) + (360_000 - m),
                0 < 360_000 - m < 360_000;
    }
}

/// Scaled sine on a half turn: `x` in millidegrees on `[0, 180_000]`.
pub open spec fn sin_half_spec(x: int) -> int {
    let p = x * (180_000 - x);
    4 * p * 1_000_000 / (40_500_000_000 - p)
}

/// Scaled sine of any millidegree angle, by symmetry from the half turn.
pub open spec fn sin_milli_spec(a: int) -> int {
    let r = mod_full_spec(a);
    if r <= 180_000 {
        sin_half_spec(r)
    } else {
        -sin_half_spec(r - 180_000)
    }
}

/// Scaled cosine: the sine a quarter turn ahead.
pub open spec fn cos_milli_spec(a: int) -> int {
    sin_milli_spec(a + 90_000)
}

/// The half-turn sine lies in `[0, TRIG_SCALE]`.
pub proof fn lemma_sin_half_bounds(x: int)
    requires
        0 <= x <= 180_000,
    ensures
        0 <= sin_half_spec(x) <= 1_000_000,
{
    let p = x * (180_000 - x);
    assert(0 <= p && p <= 8_100_000_000) by (nonlinear_arith)
        requires
            0 <= x <= 180_000,
            p == x * (180_000 - x);
    assert(4 * p * 1_000_000 <= (40_500_000_000 - p) * 1_000_000) by (nonlinear_arith)
        requires p <= 8_100_000_000;
    lemma_div_cap(4 * p * 1_000_000, 40_500_000_000 - p, 1_000_000);
}

/// Scaled sine of a millidegree angle.
pub fn sin_milli(a: i64) -> (r: i64)
    requires
        -ANGLE_BOUND_MILLIDEG * 3 <= a <= ANGLE_BOUND_MILLIDEG * 3,
    ensures
        r == sin_milli_spec(a as int),
        -1_000_000 <= r <= 1_000_000,
{
    let m = mod_full(a);
    if m <= 180_000 {
        sin_half(m)
    } else {
        -sin_half(m - 180_000)
    }
}

/// Scaled cosine of a millidegree angle.
pub fn cos_milli(a: i64) -> (r: i64)
    requires
        -ANGLE_BOUND_MILLIDEG * 2 <= a <= ANGLE_BOUND_MILLIDEG * 2,
    ensures
        r == cos_milli_spec(a as int),
        -1_000_000 <= r <= 1_000_000,
{
    sin_milli(a + 90_000)
}

/// Evaluate the half-turn sine formula.
fn sin_half(x: i64) -> (r: i64)
    requires
        0 <= x <= 180_000,
    ensures
        r == sin_half_spec(x as int),
        0 <= r <= 1_000_000,
{
    proof {
        assert(0 <= (x as int) * (180_000 - x as int) <= 8_100_000_000) by (nonlinear_arith)
            requires 0 <= x as int <= 180_000;
        lemma_sin_half_bounds(x as int);
    }
    let p = x * (180_000 - x);
    (4 * p * 1_000_000) / (40_500_000_000 - p)
}

/// Integer square root: the greatest `r` with `r * r <= n`.
pub fn isqrt(n: u64) -> (r: u64)
    ensures
        r * r <= n < (r + 1) * (r + 1),
        r <= 0x1_0000_0000,
{
    let mut lo: u64 = 0;
    let mut hi: u64 = 0x1_0000_0000;
    proof {
        assert(hi * hi > n as int) by (nonlinear_arith)
            requires hi == 0x1_0000_0000int, n < 0x1_0000_0000_0000_0000;
    }
    while lo + 1 < hi
        invariant
            lo < hi <= 0x1_0000_0000,
            lo * lo <= n,
            hi * hi > n,
        decreases hi - lo,
    {
        let mid = lo + (hi - lo) / 2;
        proof {
            assert(mid * mid < 0x1_0000_0000_0000_0000) by (nonlinear_arith)
                requires mid < 0x1_0000_0000int;
        }
        if mid * mid <= n {
            lo = mid;
        } else {
            hi = mid;
        }
    }
    lo
}

/// Scaled inverse tangent on one octant: `t` scaled by `TRIG_SCALE` on
/// `[0, TRIG_SCALE]`, result in millidegrees on `[0, 45_000]`.
pub open spec fn atan_frac_spec(t: int) -> int {
    (45_000 * t * 1_000_000 + 15_643 * t * (1_000_000 - t)) / 1_000_000_000_000
}

/// The octant inverse tangent lies in `[0, 45_000]` and is exact at the ends.
pub proof fn lemma_atan_frac_bounds(t: int)
    requires
        0 <= t <= 1_000_000,
    ensures
        0 <= atan_frac_spec(t) <= 45_000,
        t == 0 ==> atan_frac_spec(t) == 0,
        t == 1_000_000 ==> atan_frac_spec(t) == 45_000,
{
    let num = 45_000 * t * 1_000_000 + 15_643 * t * (1_000_000 - t);
    assert(0 <= num <= 45_000_000_000_000_000) by (nonlinear_arith)
        requires
            0 <= t <= 1_000_000,
            num == 45_000 * t * 1_000_000 + 15_643 * t * (1_000_000 - t);
    lemma_div_cap(num, 1_000_000_000_000, 45_000);
    if t == 0 {
        lemma_div_cap(num, 1_000_000_000_000, 0);
    }
    if t == 1_000_000 {
        lemma_fundamental_div_mod_converse(num, 1_000_000_000_000, 45_000, 0);
    }
}

/// Evaluate the octant inverse tangent.
fn atan_frac(t: i64) -> (r: i64)
    requires
        0 <= t <= 1_000_000,
    ensures
        r == atan_frac_spec(t as int),
        0 <= r <= 45_000,
{
    proof {
        assert(0 <= 45_000 * (t as int) * 1_000_000 <= 45_000_000_000_000_000) by (nonlinear_arith)
            requires 0 <= t as int <= 1_000_000;
        assert(0 <= 15_643 * (t as int) * (1_000_000 - t as int) <= 3_910_750_000_000_000)
            by (nonlinear_arith)
            requires 0 <= t as int <= 1_000_000;
        lemma_atan_frac_bounds(t as int);
    }
    (45_000 * t * 1_000_000 + 15_643 * t * (1_000_000 - t)) / 1_000_000_000_000
}

/// Angle of the vector `(x, y)`, measured in millidegrees from the positive
/// `y` axis toward the positive `x` axis, in `[-180_000, 180_000]`; `0` for
/// the zero vector.
pub open spec fn atan2_milli_spec(x: int, y: int) -> int {
    if x == 0 && y == 0 {
        0
    } else {
        let ax = if x >= 0 { x } else { -x };
        let ay = if y >= 0 { y } else { -y };
        let phi = if ax <= ay {
            atan_frac_spec(ax * 1_000_000 / ay)
        } else {
            90_000 - atan_frac_spec(ay * 1_000_000 / ax)
        };
        if x >= 0 {
            if y >= 0 { phi } else { 180_000 - phi }
        } else {
            if y >= 0 { -phi } else { -(180_000 - phi) }
        }
    }
}

/// The octant ratio lies in `[0, TRIG_SCALE]`.
proof fn lemma_ratio_bounds(small: int, big: int)
    requires
        0 <= small <= big,
        0 < big,
    ensures
        0 <= small * 1_000_000 / big <= 1_000_000,
{
    assert(small * 1_000_000 <= big * 1_000_000) by (nonlinear_arith)
        requires 0 <= small <= big;
    lemma_div_cap(small * 1_000_000, big, 1_000_000);
}

/// The angle of any vector lies in `[-180_000, 180_000]`.
pub proof fn lemma_atan2_bounds(x: int, y: int)
    ensures
        -180_000 <= atan2_milli_spec(x, y) <= 180_000,
{
    if !(x == 0 && y == 0) {
        let ax = if x >= 0 { x } else { -x };
        let ay = if y >= 0 { y } else { -y };
        if ax <= ay {
            lemma_ratio_bounds(ax, ay);
            lemma_atan_frac_bounds(ax * 1_000_000 / ay);
        } else {
            lemma_ratio_bounds(ay, ax);
            lemma_atan_frac_bounds(ay * 1_000_000 / ax);
        }
    }
}

/// On the axes and the diagonals the angle is exact: the octant
/// approximation is pinned at both of its ends.
pub proof fn lemma_atan2_exact(p: int)
    requires
        0 < p,
    ensures
        atan2_milli_spec(0, p) == 0,
        atan2_milli_spec(p, 0) == 90_000,
        atan2_milli_spec(0, -p) == 180_000,
        atan2_milli_spec(-p, 0) == -90_000,
        atan2_milli_spec(p, p) == 45_000,
        atan2_milli_spec(p, -p) == 135_000,
        atan2_milli_spec(-p, p) == -45_000,
        atan2_milli_spec(-p, -p) == -135_000,
{
    lemma_fundamental_div_mod_converse(0int * 1_000_000, p, 0, 0);
    lemma_mul_is_commutative(p, 1_000_000);
    lemma_fundamental_div_mod_converse(p * 1_000_000, p, 1_000_000, 0);
    lemma_atan_frac_bounds(0);
    lemma_atan_frac_bounds(1_000_000);
}

/// Angle of the vector `(x, y)` from the positive `y` axis.
pub fn atan2_milli(x: i64, y: i64) -> (r: i64)
    requires
        -COORD_BOUND <= x <= COORD_BOUND,
        -COORD_BOUND <= y <= COORD_BOUND,
    ensures
        r == atan2_milli_spec(x as int, y as int),
        -180_000 <= r <= 180_000,
{
    proof {
        lemma_atan2_bounds(x as int, y as int);
    }
    if x == 0 && y == 0 {
        return 0;
    }
    let ax = if x >= 0 { x } else { -x };
    let ay = if y >= 0 { y } else { -y };
    let phi = if ax <= ay {
        proof { lemma_ratio_bounds(ax as int, ay as int); }
        atan_frac(ax * 1_000_000 / ay)
    } else {
        proof { lemma_ratio_bounds(ay as int, ax as int); }
        90_000 - atan_frac(ay * 1_000_000 / ax)
    };
    if x >= 0 {
        if y >= 0 { phi } else { 180_000 - phi }
    } else {
        if y >= 0 { -phi } else { -(180_000 - phi) }
    }
}

} // verus!
