//! The swerve drivetrain's per-cycle computation: field-relative rotation
//! of the motion request, kinematics, odometry fusion, and the per-wheel
//! shortest-rotation optimization against the measured steering angles.
//!
//! Reading encoders and writing motor outputs happens at the edge; this
//! module turns one cycle's request and measurements into the four wheel
//! commands and the updated position estimate.

use vstd::prelude::*;

use crate::angle::{wrap_half_spec, wrap_half, ANGLE_BOUND_MILLIDEG};
use crate::kinematics::{
    Swerve, ModuleState, Vec2, div_trunc_spec, div_trunc, lemma_div_trunc_cap,
    optimize_angle_spec, optimize_flips, wheel_vx, wheel_vy, wheel_mag, max_wheel_mag,
};
use crate::odometry::{Odometry, ModuleReturn, DISTANCE_BOUND_UM, POSITION_LIMIT_UM};
use crate::trig::{cos_milli_spec, sin_milli_spec, cos_milli, sin_milli, atan2_milli_spec};

verus! {

/// Largest motion request `set_speeds` accepts, milli-fraction; larger
/// requests are clamped before use.
pub const DRIVE_REQUEST_LIMIT_MILLI: i64 = 50_000;

/// A request component clamped to the accepted band.
pub open spec fn clamp_request_spec(v: int) -> int {
    if v > DRIVE_REQUEST_LIMIT_MILLI {
        DRIVE_REQUEST_LIMIT_MILLI as int
    } else if v < -DRIVE_REQUEST_LIMIT_MILLI {
        -DRIVE_REQUEST_LIMIT_MILLI as int
    } else {
        v
    }
}

/// The body-frame motion request rotated into the field frame by the
/// relative heading `rel`; the body-frame request vector is `(strafe, -fwd)`.
pub open spec fn field_transform_spec(fwd: int, strafe: int, rel: int) -> Vec2 {
    let x = clamp_request_spec(strafe);
    let y = clamp_request_spec(-fwd);
    Vec2 {
        x: div_trunc_spec(x * cos_milli_spec(rel) - y * sin_milli_spec(rel), 1_000_000) as i64,
        y: div_trunc_spec(x * sin_milli_spec(rel) + y * cos_milli_spec(rel), 1_000_000) as i64,
    }
}

/// The drivetrain's cycle state: geometry, position estimate, and the
/// captured heading offset.
pub struct Drivetrain {
    /// The module geometry.
    pub kinematics: Swerve,
    /// The running field position estimate.
    pub odometry: Odometry,
    /// The gyro angle captured as the field heading zero, millidegrees.
    pub offset_millideg: i64,
}

impl Drivetrain {
    /// Geometry and offset within the accepted ranges.
    pub open spec fn wf(self) -> bool {
        &&& self.kinematics.wf()
        &&& self.odometry.wf()
        &&& -ANGLE_BOUND_MILLIDEG <= self.offset_millideg <= ANGLE_BOUND_MILLIDEG
    }

    /// A drivetrain over the given module geometry, at the field origin.
    pub fn new(kinematics: Swerve) -> (r: Drivetrain)
        requires
            kinematics.wf(),
        ensures
            r.wf(),
            r.kinematics == kinematics,
            r.offset_millideg == 0,
            r.odometry.position.x == 0 && r.odometry.position.y == 0,
            r.odometry.last_modules@.len() == 0,
    {
        Drivetrain { kinematics, odometry: Odometry::new(), offset_millideg: 0 }
    }

    /// The heading relative to the captured zero, wrapped to the
    /// half-turn band.
    pub fn get_offset(&self, angle_millideg: i64) -> (r: i64)
        requires
            self.wf(),
            -ANGLE_BOUND_MILLIDEG <= angle_millideg <= ANGLE_BOUND_MILLIDEG,
        ensures
            r == wrap_half_spec(angle_millideg - self.offset_millideg),
    {
        wrap_half(angle_millideg - self.offset_millideg)
    }

    /// Capture the current gyro angle as the new field heading zero.
    pub fn reset_heading(&mut self, angle_millideg: i64)
        requires
            old(self).wf(),
            -ANGLE_BOUND_MILLIDEG <= angle_millideg <= ANGLE_BOUND_MILLIDEG,
        ensures
            final(self).wf(),
            final(self).offset_millideg == angle_millideg,
            final(self).kinematics == old(self).kinematics,
            final(self).odometry == old(self).odometry,
    {
        self.offset_millideg = angle_millideg;
    }

    /// One cycle of the drivetrain: rotate the request into the field
    /// frame, compute the four wheel vectors, fold the measured wheel
    /// motion into the odometry, and optimize each commanded wheel state
    /// against its measured steering angle.
    ///
    /// `measured` is the four measured module states (speed ignored) and
    /// `drive_positions_um` the four cumulative drive distances.  The
    /// returned states are the wheel commands: speed in milli-fraction,
    /// steering target in millidegrees keeping the measured winding.
    pub fn set_speeds(
        &mut self,
        fwd: i64,
        strafe: i64,
        rot: i64,
        angle_millideg: i64,
        measured: &Vec<ModuleState>,
        drive_positions_um: &Vec<i64>,
    ) -> (r: Vec<ModuleState>)
        requires
            old(self).wf(),
            -1_000_000_000 <= fwd <= 1_000_000_000,
            -1_000_000_000 <= strafe <= 1_000_000_000,
            -1_000_000_000 <= rot <= 1_000_000_000,
            -ANGLE_BOUND_MILLIDEG <= angle_millideg <= ANGLE_BOUND_MILLIDEG,
            measured@.len() == old(self).kinematics.positions@.len(),
            drive_positions_um@.len() == old(self).kinematics.positions@.len(),
            forall|i: int| 0 <= i < measured@.len()
                ==> (#[trigger] measured@[i]).in_bounds(),
            forall|i: int| 0 <= i < drive_positions_um@.len()
                ==> -DISTANCE_BOUND_UM <= #[trigger] drive_positions_um@[i]
                    <= DISTANCE_BOUND_UM,
            -POSITION_LIMIT_UM <= old(self).odometry.position.x <= POSITION_LIMIT_UM,
            -POSITION_LIMIT_UM <= old(self).odometry.position.y <= POSITION_LIMIT_UM,
            old(self).kinematics.positions@.len() <= 8,
        ensures
            final(self).wf(),
            final(self).kinematics == old(self).kinematics,
            final(self).offset_millideg == old(self).offset_millideg,
            final(self).odometry.last_vision_ms == old(self).odometry.last_vision_ms,
            final(self).odometry.last_modules@.len() == measured@.len(),
            forall|i: int| 0 <= i < measured@.len() ==> {
                let m = #[trigger] final(self).odometry.last_modules@[i];
                m.distance == drive_positions_um@[i] && m.angle == measured@[i].angle
            },
            r@.len() == measured@.len(),
            ({
                let t = field_transform_spec(fwd as int, strafe as int,
                    angle_millideg - old(self).offset_millideg);
                let rotc = clamp_request_spec(rot as int);
                let ps = old(self).kinematics.positions@;
                forall|i: int| 0 <= i < r@.len() ==> {
                    let cmd_angle = atan2_milli_spec(wheel_vx(ps[i], t, rotc),
                        wheel_vy(ps[i], t, rotc));
                    let mag = wheel_mag(ps[i], t, rotc);
                    let maxm = max_wheel_mag(ps, t, rotc);
                    let speed = if maxm > 1000 { mag * 1000 / maxm } else { mag };
                    (#[trigger] r@[i]).angle == optimize_angle_spec(cmd_angle,
                        measured@[i].angle as int)
                    && r@[i].speed == (if optimize_flips(cmd_angle, measured@[i].angle as int) {
                        -speed
                    } else {
                        speed
                    })
                }
            }),
    {
        let rel = angle_millideg - self.offset_millideg;
        let c = cos_milli(rel);
        let s = sin_milli(rel);
        let tx = clamp_request(strafe);
        let ty = clamp_request(-fwd);
        proof {
            assert(-50_000_000_000 <= tx as int * (c as int) <= 50_000_000_000)
                by (nonlinear_arith)
                requires
                    -50_000 <= tx as int <= 50_000,
                    -1_000_000 <= c as int <= 1_000_000;
            assert(-50_000_000_000 <= ty as int * (s as int) <= 50_000_000_000)
                by (nonlinear_arith)
                requires
                    -50_000 <= ty as int <= 50_000,
                    -1_000_000 <= s as int <= 1_000_000;
            assert(-50_000_000_000 <= tx as int * (s as int) <= 50_000_000_000)
                by (nonlinear_arith)
                requires
                    -50_000 <= tx as int <= 50_000,
                    -1_000_000 <= s as int <= 1_000_000;
            assert(-50_000_000_000 <= ty as int * (c as int) <= 50_000_000_000)
                by (nonlinear_arith)
                requires
                    -50_000 <= ty as int <= 50_000,
                    -1_000_000 <= c as int <= 1_000_000;
            assert(-(1_000_000int * 100_000) <= tx as int * (c as int) - ty as int * (s as int)
                <= 1_000_000int * 100_000) by (nonlinear_arith)
                requires
                    -50_000 <= tx as int <= 50_000,
                    -50_000 <= ty as int <= 50_000,
                    -1_000_000 <= c as int <= 1_000_000,
                    -1_000_000 <= s as int <= 1_000_000;
            assert(-(1_000_000int * 100_000) <= tx as int * (s as int) + ty as int * (c as int)
                <= 1_000_000int * 100_000) by (nonlinear_arith)
                requires
                    -50_000 <= tx as int <= 50_000,
                    -50_000 <= ty as int <= 50_000,
                    -1_000_000 <= c as int <= 1_000_000,
                    -1_000_000 <= s as int <= 1_000_000;
            lemma_div_trunc_cap(tx as int * (c as int) - ty as int * (s as int), 1_000_000,
                100_000);
            lemma_div_trunc_cap(tx as int * (s as int) + ty as int * (c as int), 1_000_000,
                100_000);
        }
        let transform = Vec2 {
            x: div_trunc(tx * c - ty * s, 1_000_000),
            y: div_trunc(tx * s + ty * c, 1_000_000),
        };
        let rotc = clamp_request(rot);
        let wheel_states = self.kinematics.calculate(transform, rotc);

        let n = measured.len();
        let mut samples: Vec<ModuleReturn> = Vec::new();
        let mut i: usize = 0;
        while i < n
            invariant
                n == measured@.len(),
                n == drive_positions_um@.len(),
                i <= n,
                samples@.len() == i,
                forall|j: int| 0 <= j < n
                    ==> (#[trigger] measured@[j]).in_bounds(),
                forall|j: int| 0 <= j < n
                    ==> -DISTANCE_BOUND_UM <= #[trigger] drive_positions_um@[j]
                        <= DISTANCE_BOUND_UM,
                forall|j: int| 0 <= j < i ==> {
                    let m = #[trigger] samples@[j];
                    m.distance == drive_positions_um@[j] && m.angle == measured@[j].angle
                        && m.in_bounds()
                },
            decreases n - i,
        {
            samples.push(ModuleReturn {
                distance: drive_positions_um[i],
                angle: measured[i].angle,
            });
            i = i + 1;
        }
        self.odometry.calculate(samples, angle_millideg);

        let mut out: Vec<ModuleState> = Vec::new();
        let mut i: usize = 0;
        let ghost t = transform;
        let ghost rotg = rotc as int;
        let ghost ps = self.kinematics.positions@;
        proof {
            assert forall|j: int| 0 <= j < n implies -180_000
                <= (#[trigger] wheel_states@[j]).angle <= 180_000 by {
                crate::trig::lemma_atan2_bounds(wheel_vx(ps[j], t, rotg),
                    wheel_vy(ps[j], t, rotg));
            }
        }
        while i < n
            invariant
                n == measured@.len(),
                n == ps.len(),
                wheel_states@.len() == n,
                ps == self.kinematics.positions@,
                i <= n,
                out@.len() == i,
                forall|j: int| 0 <= j < n
                    ==> (#[trigger] measured@[j]).in_bounds(),
                forall|j: int| 0 <= j < n ==> (#[trigger] wheel_states@[j]).angle
                    == atan2_milli_spec(wheel_vx(ps[j], t, rotg), wheel_vy(ps[j], t, rotg)),
                forall|j: int| 0 <= j < n ==> (#[trigger] wheel_states@[j]).speed == {
                    let m = max_wheel_mag(ps, t, rotg);
                    if m > 1000 {
                        wheel_mag(ps[j], t, rotg) * 1000 / m
                    } else {
                        wheel_mag(ps[j], t, rotg)
                    }
                },
                forall|j: int| 0 <= j < n
                    ==> 0 <= (#[trigger] wheel_states@[j]).speed <= 1000,
                forall|j: int| 0 <= j < n
                    ==> -180_000 <= (#[trigger] wheel_states@[j]).angle <= 180_000,
                forall|j: int| 0 <= j < i ==> {
                    let cmd_angle = atan2_milli_spec(wheel_vx(ps[j], t, rotg),
                        wheel_vy(ps[j], t, rotg));
                    (#[trigger] out@[j]).angle == optimize_angle_spec(cmd_angle,
                        measured@[j].angle as int)
                    && out@[j].speed == (if optimize_flips(cmd_angle,
                        measured@[j].angle as int) {
                        -wheel_states@[j].speed as int
                    } else {
                        wheel_states@[j].speed as int
                    })
                },
            decreases n - i,
        {
            let w = wheel_states[i];
            let m = measured[i];
            let opt = w.optimize(&m);
            out.push(opt);
            i = i + 1;
        }
        out
    }
}

/// Clamp a request component to the accepted band.
fn clamp_request(v: i64) -> (r: i64)
    requires
        -2_000_000_000 <= v <= 2_000_000_000,
    ensures
        r == clamp_request_spec(v as int),
        -DRIVE_REQUEST_LIMIT_MILLI <= r <= DRIVE_REQUEST_LIMIT_MILLI,
{
    if v > DRIVE_REQUEST_LIMIT_MILLI {
        DRIVE_REQUEST_LIMIT_MILLI
    } else if v < -DRIVE_REQUEST_LIMIT_MILLI {
        -DRIVE_REQUEST_LIMIT_MILLI
    } else {
        v
    }
}

} // verus!
