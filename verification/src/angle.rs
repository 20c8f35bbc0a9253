//! Planar angles in millidegrees and the wrap used throughout the core.
//!
//! An angle is a winding-aware count of millidegrees: `725_000` (725 degrees)
//! is deliberately distinct from `5_000`, because position-mode steering
//! actuators must be commanded without unwrapping discontinuities.  Only
//! *differences* of angles are ever wrapped, into the half-open band
//! `[-180_000, 180_000)`.

use vstd::prelude::*;

verus! {

/// Millidegrees in a half turn.
pub const HALF_TURN_MILLIDEG: i64 = 180_000;

/// Millidegrees in a quarter turn.
pub const QUARTER_TURN_MILLIDEG: i64 = 90_000;

/// Angle magnitudes the core accepts; generous enough for any number of
/// windings a match could produce, small enough that every sum and product
/// in the library stays inside `i64`.
pub const ANGLE_BOUND_MILLIDEG: i64 = 1_000_000_000_000;

/// The representative of `d` modulo a full turn that lies in
/// `[-180_000, 180_000)` (`%` is Euclidean in specifications).
pub open spec fn wrap_half_spec(d: int) -> int {
    (d + 180_000) % 360_000 - 180_000
}

/// The wrapped difference is congruent to the input modulo a full turn.
pub proof fn lemma_wrap_half_congruent(d: int)
    ensures
        (wrap_half_spec(d) - d) % 360_000 == 0,
        -180_000 <= wrap_half_spec(d) < 180_000,
{
    let t = d + 180_000;
    assert(t % 360_000 == t - 360_000 * (t / 360_000)) by (nonlinear_arith);
    assert(0 <= t % 360_000 < 360_000) by (nonlinear_arith);
    let w = wrap_half_spec(d);
    assert(w - d == 360_000 * (-(t / 360_000)));
    assert(360_000 * (-(t / 360_000)) % 360_000 == 0) by (nonlinear_arith);
}

/// Wrap a millidegree difference into `[-180_000, 180_000)`.
pub fn wrap_half(d: i64) -> (w: i64)
    requires
        -ANGLE_BOUND_MILLIDEG * 4 <= d <= ANGLE_BOUND_MILLIDEG * 4,
    ensures
        w == wrap_half_spec(d as int),
{
    let t = d + 180_000;
    if t >= 0 {
        t % 360_000 - 180_000
    } else {
        let m = (-t) % 360_000;
        let w = if m == 0 { -180_000 } else { 360_000 - m - 180_000 };
        proof {
            lemma_mod_negate(t as int);
        }
        w
    }
}

/// Relates the Euclidean remainders of `t` and `-t` for a full turn.
proof fn lemma_mod_negate(t: int)
    ensures
        (-t) % 360_000 == 0 ==> t % 360_000 == 0,
        (-t) % 360_000 != 0 ==> t % 360_000 == 360_000 - (-t) % 360_000,
{
    let m = (-t) % 360_000;
    assert((-t) % 360_000 == (-t) - 360_000 * ((-t) / 360_000)) by (nonlinear_arith);
    if m == 0 {
        assert(t == 360_000 * (-((-t) / 360_000)));
        assert(t % 360_000 == 0) by (nonlinear_arith)
            requires t == 360_000 * (-((-t) / 360_000));
    } else {
        assert(t == 360_000 * (-1 - (-t) / 360_000) + (360_000 - m));
        assert(0 < 360_000 - m < 360_000);
        assert(t % 360_000 == 360_000 - m) by (nonlinear_arith)
            requires
                t == 360_000 * (-1 - (-t) / 360_000) + (360_000 - m),
                0 < 360_000 - m < 360_000;
    }
}

} // verus!
