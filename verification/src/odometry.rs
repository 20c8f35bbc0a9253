//! Field-relative odometry fusion.
//!
//! Each control cycle the drivetrain reports, per module, the cumulative
//! drive distance and the measured steering azimuth.  The difference against
//! the previous report, rotated by the gyro heading plus the module's
//! azimuth, is a field-frame displacement; the four displacements are
//! averaged and accumulated into the running position.  An external vision
//! pipeline may overwrite the position outright, gated so that only strictly
//! newer fixes are accepted.  Positions and distances are in micrometers;
//! the stored position is always blue-alliance-relative, with red-alliance
//! poses mirrored across the field's short axis at ingestion.

use vstd::prelude::*;

use crate::angle::ANGLE_BOUND_MILLIDEG;
use crate::kinematics::{Vec2, div_trunc_spec, div_trunc, lemma_div_trunc_cap};
use crate::trig::{cos_milli_spec, sin_milli_spec, cos_milli, sin_milli};

verus! {

/// Half the field's short span, micrometers (13.5 feet).
pub const HALF_FIELD_WIDTH_UM: i64 = 4_114_800;

/// Largest cumulative module distance the fusion accepts, micrometers.
pub const DISTANCE_BOUND_UM: i64 = 500_000_000_000;

/// Largest field position magnitude the fusion accepts, micrometers.
pub const POSITION_LIMIT_UM: i64 = 1_000_000_000_000_000;

/// One module's point-in-time sensor sample: cumulative drive travel and
/// measured steering azimuth.
#[derive(Clone, Copy, Debug, PartialEq, Eq, Structural)]
pub struct ModuleReturn {
    /// Cumulative linear travel, micrometers.
    pub distance: i64,
    /// Measured module azimuth, millidegrees.
    pub angle: i64,
}

impl ModuleReturn {
    /// Within the ranges the fusion arithmetic accepts.
    pub open spec fn in_bounds(self) -> bool {
        &&& -DISTANCE_BOUND_UM <= self.distance <= DISTANCE_BOUND_UM
        &&& -ANGLE_BOUND_MILLIDEG <= self.angle <= ANGLE_BOUND_MILLIDEG
    }
}

impl Default for ModuleReturn {
    /// A sample with no travel and a zero azimuth.
    fn default() -> (r: ModuleReturn)
        ensures
            r.distance == 0,
            r.angle == 0,
    {
        ModuleReturn { distance: 0, angle: 0 }
    }
}

/// Numerator of the field-frame `x` displacement summed over the modules:
/// each distance delta times the scaled cosine of heading plus azimuth.
pub open spec fn odo_sum_x(news: Seq<ModuleReturn>, olds: Seq<ModuleReturn>, heading: int) -> int
    decreases news.len(),
{
    if news.len() == 0 || news.len() != olds.len() {
        0
    } else {
        odo_sum_x(news.drop_last(), olds.drop_last(), heading)
            + (news.last().distance - olds.last().distance)
                * cos_milli_spec(heading + news.last().angle)
    }
}

/// Numerator of the field-frame `y` displacement summed over the modules:
/// minus each distance delta times the scaled sine of heading plus azimuth.
pub open spec fn odo_sum_y(news: Seq<ModuleReturn>, olds: Seq<ModuleReturn>, heading: int) -> int
    decreases news.len(),
{
    if news.len() == 0 || news.len() != olds.len() {
        0
    } else {
        odo_sum_y(news.drop_last(), olds.drop_last(), heading)
            - (news.last().distance - olds.last().distance)
                * sin_milli_spec(heading + news.last().angle)
    }
}

/// The averaged field displacement along `x`, micrometers.
pub open spec fn odo_delta_x(news: Seq<ModuleReturn>, olds: Seq<ModuleReturn>, heading: int) -> int {
    div_trunc_spec(odo_sum_x(news, olds, heading), 1_000_000 * news.len() as int)
}

/// The averaged field displacement along `y`, micrometers.
pub open spec fn odo_delta_y(news: Seq<ModuleReturn>, olds: Seq<ModuleReturn>, heading: int) -> int {
    div_trunc_spec(odo_sum_y(news, olds, heading), 1_000_000 * news.len() as int)
}

/// The red-alliance mirror of a raw field coordinate pair: `x` kept, `y`
/// reflected across the field's short axis.
pub open spec fn mirrored_y(y: int) -> int {
    HALF_FIELD_WIDTH_UM - y
}

/// The running field position estimate.
pub struct Odometry {
    /// The previous cycle's module samples; empty until the first report.
    pub last_modules: Vec<ModuleReturn>,
    /// Field position, micrometers.
    pub position: Vec2,
    /// Timestamp of the last accepted vision fix, milliseconds.
    pub last_vision_ms: u64,
}

impl Odometry {
    /// Every stored sample is in range.
    pub open spec fn wf(self) -> bool {
        forall|i: int| 0 <= i < self.last_modules@.len()
            ==> (#[trigger] self.last_modules@[i]).in_bounds()
    }

    /// A fresh estimate at the field origin with no samples seen.
    pub fn new() -> (r: Odometry)
        ensures
            r.wf(),
            r.last_modules@.len() == 0,
            r.position.x == 0 && r.position.y == 0,
            r.last_vision_ms == 0,
    {
        Odometry {
            last_modules: Vec::new(),
            position: Vec2 { x: 0, y: 0 },
            last_vision_ms: 0,
        }
    }

    /// Overwrite the position with an absolute field pose, mirroring a
    /// red-alliance pose into the blue-relative frame.
    pub fn set(&mut self, x: i64, y: i64, red: bool)
        requires
            -POSITION_LIMIT_UM <= x <= POSITION_LIMIT_UM,
            -POSITION_LIMIT_UM <= y <= POSITION_LIMIT_UM,
        ensures
            final(self).position.x == x,
            final(self).position.y == if red { mirrored_y(y as int) } else { y as int },
            final(self).last_modules == old(self).last_modules,
            final(self).last_vision_ms == old(self).last_vision_ms,
    {
        if red {
            self.position = Vec2 { x, y: HALF_FIELD_WIDTH_UM - y };
        } else {
            self.position = Vec2 { x, y };
        }
    }

    /// Apply an asynchronous vision fix: accepted only when its timestamp is
    /// strictly newer than the last accepted one, in which case the position
    /// is overwritten outright; an older or equal fix changes nothing.
    pub fn update_from_vision(&mut self, time_ms: u64, x: i64, y: i64, red: bool)
        requires
            -POSITION_LIMIT_UM <= x <= POSITION_LIMIT_UM,
            -POSITION_LIMIT_UM <= y <= POSITION_LIMIT_UM,
        ensures
            time_ms <= old(self).last_vision_ms ==> *final(self) == *old(self),
            time_ms > old(self).last_vision_ms ==> {
                &&& final(self).position.x == x
                &&& final(self).position.y == if red { mirrored_y(y as int) } else { y as int }
                &&& final(self).last_vision_ms == time_ms
                &&& final(self).last_modules == old(self).last_modules
            },
    {
        if time_ms <= self.last_vision_ms {
            return;
        }
        self.set(x, y, red);
        self.last_vision_ms = time_ms;
    }

    /// Fold one cycle of module samples into the position.
    ///
    /// The first call (or any call after the module count changes) only
    /// seeds the stored samples and moves nothing.  Otherwise the position
    /// advances by the average of the per-module distance deltas rotated by
    /// `heading` plus each module's azimuth.
    pub fn calculate(&mut self, positions: Vec<ModuleReturn>, heading: i64)
        requires
            old(self).wf(),
            positions@.len() <= 8,
            forall|i: int| 0 <= i < positions@.len()
                ==> (#[trigger] positions@[i]).in_bounds(),
            -ANGLE_BOUND_MILLIDEG <= heading <= ANGLE_BOUND_MILLIDEG,
            -POSITION_LIMIT_UM <= old(self).position.x <= POSITION_LIMIT_UM,
            -POSITION_LIMIT_UM <= old(self).position.y <= POSITION_LIMIT_UM,
        ensures
            final(self).wf(),
            final(self).last_modules@ == positions@,
            final(self).last_vision_ms == old(self).last_vision_ms,
            positions@.len() != old(self).last_modules@.len() || positions@.len() == 0
                ==> final(self).position == old(self).position,
            positions@.len() == old(self).last_modules@.len() && positions@.len() > 0 ==> {
                &&& final(self).position.x == old(self).position.x + odo_delta_x(
                    positions@, old(self).last_modules@, heading as int)
                &&& final(self).position.y == old(self).position.y + odo_delta_y(
                    positions@, old(self).last_modules@, heading as int)
            },
    {
        let n = positions.len();
        if n != self.last_modules.len() || n == 0 {
            self.last_modules = positions;
            return;
        }

        let ghost news = positions@;
        let ghost olds = self.last_modules@;
        let ghost h = heading as int;

        let mut sum_x: i64 = 0;
        let mut sum_y: i64 = 0;
        let mut i: usize = 0;
        while i < n
            invariant
                n == news.len(),
                n == olds.len(),
                n >= 1,
                positions@ == news,
                self.last_modules@ == olds,
                forall|j: int| 0 <= j < n ==> (#[trigger] news[j]).in_bounds(),
                forall|j: int| 0 <= j < n ==> (#[trigger] olds[j]).in_bounds(),
                -ANGLE_BOUND_MILLIDEG <= heading <= ANGLE_BOUND_MILLIDEG,
                h == heading as int,
                i <= n,
                sum_x == odo_sum_x(news.take(i as int), olds.take(i as int), h),
                sum_y == odo_sum_y(news.take(i as int), olds.take(i as int), h),
                n <= 8,
                -(i as int) * 1_000_000_000_000_000_000 <= sum_x <= (i as int)
                    * 1_000_000_000_000_000_000,
                -(i as int) * 1_000_000_000_000_000_000 <= sum_y <= (i as int)
                    * 1_000_000_000_000_000_000,
            decreases n - i,
        {
            let nw = positions[i];
            let od = self.last_modules[i];
            let d = nw.distance - od.distance;
            let c = cos_milli(heading + nw.angle);
            let s = sin_milli(heading + nw.angle);
            proof {
                assert(-1_000_000_000_000_000_000 <= d as int * (c as int)
                    <= 1_000_000_000_000_000_000) by (nonlinear_arith)
                    requires
                        -1_000_000_000_000 <= d as int <= 1_000_000_000_000,
                        -1_000_000 <= c as int <= 1_000_000;
                assert(-1_000_000_000_000_000_000 <= d as int * (s as int)
                    <= 1_000_000_000_000_000_000) by (nonlinear_arith)
                    requires
                        -1_000_000_000_000 <= d as int <= 1_000_000_000_000,
                        -1_000_000 <= s as int <= 1_000_000;
                assert(news.take(i + 1).drop_last() =~= news.take(i as int));
                assert(olds.take(i + 1).drop_last() =~= olds.take(i as int));
            }
            sum_x = sum_x + d * c;
            sum_y = sum_y - d * s;
            i = i + 1;
        }
        proof {
            assert(news.take(n as int) =~= news);
            assert(olds.take(n as int) =~= olds);
            assert(-((1_000_000 * n as int) * 1_000_000_000_000_000) <= sum_x
                <= (1_000_000 * n as int) * 1_000_000_000_000_000) by (nonlinear_arith)
                requires
                    1 <= n as int <= 8,
                    -(n as int) * 1_000_000_000_000_000_000 <= sum_x
                        <= (n as int) * 1_000_000_000_000_000_000;
            assert(-((1_000_000 * n as int) * 1_000_000_000_000_000) <= sum_y
                <= (1_000_000 * n as int) * 1_000_000_000_000_000) by (nonlinear_arith)
                requires
                    1 <= n as int <= 8,
                    -(n as int) * 1_000_000_000_000_000_000 <= sum_y
                        <= (n as int) * 1_000_000_000_000_000_000;
            lemma_div_trunc_cap(sum_x as int, 1_000_000 * n as int, 1_000_000_000_000_000);
            lemma_div_trunc_cap(sum_y as int, 1_000_000 * n as int, 1_000_000_000_000_000);
        }
        let divisor = 1_000_000 * n as i64;
        let dx = div_trunc(sum_x, divisor);
        let dy = div_trunc(sum_y, divisor);
        self.position = Vec2 { x: self.position.x + dx, y: self.position.y + dy };
        self.last_modules = positions;
    }
}

/// Unchanged module distances move the position by exactly nothing: every
/// term of the displacement sums vanishes.
pub proof fn lemma_zero_deltas_no_motion(
    news: Seq<ModuleReturn>,
    olds: Seq<ModuleReturn>,
    heading: int,
)
    requires
        news.len() == olds.len(),
        news.len() > 0,
        forall|i: int| 0 <= i < news.len()
            ==> (#[trigger] news[i]).distance == olds[i].distance,
    ensures
        odo_sum_x(news, olds, heading) == 0,
        odo_sum_y(news, olds, heading) == 0,
        odo_delta_x(news, olds, heading) == 0,
        odo_delta_y(news, olds, heading) == 0,
    decreases news.len(),
{
    assert(news.drop_last().len() == olds.drop_last().len());
    assert(forall|i: int| 0 <= i < news.drop_last().len()
        ==> (#[trigger] news.drop_last()[i]).distance == olds.drop_last()[i].distance);
    if news.len() > 1 {
        lemma_zero_deltas_no_motion(news.drop_last(), olds.drop_last(), heading);
    } else {
        assert(news.drop_last().len() == 0);
        assert(odo_sum_x(news.drop_last(), olds.drop_last(), heading) == 0);
        assert(odo_sum_y(news.drop_last(), olds.drop_last(), heading) == 0);
    }
    let d = news.last().distance - olds.last().distance;
    assert(d == 0);
    assert(d * cos_milli_spec(heading + news.last().angle) == 0) by (nonlinear_arith)
        requires d == 0;
    assert(d * sin_milli_spec(heading + news.last().angle) == 0) by (nonlinear_arith)
        requires d == 0;
    vstd::arithmetic::div_mod::lemma_div_of0(1_000_000 * news.len() as int);
}

} // verus!
