//! Control core for a four-module swerve-drive competition robot.
//!
//! The library is the decision-making half of the robot program: drivetrain
//! kinematics, field odometry, trajectory following, the cooperative action
//! state machines that move game pieces, and the fixed-rate scheduler rules.
//! Everything is computed over scaled integers so that each function's
//! behaviour can be stated and proved exactly:
//!
//! * angles are in millidegrees (`1000` = one degree),
//! * lengths and field positions are in micrometers,
//! * motor commands and joystick axes are milli-fractions (`1000` = full scale),
//! * trigonometric ratios are scaled by `1_000_000`,
//! * time is in milliseconds.
//!
//! The hardware, file and network edges (motor controllers, gyroscope, game
//! pad decoding, path files, the telemetry server) live outside the library
//! and exchange plain integer values with it.

pub mod actions;
pub mod angle;
pub mod auto;
pub mod drivetrain;
pub mod kinematics;
pub mod odometry;
pub mod path;
pub mod scheduler;
pub mod teleop;
pub mod trig;
