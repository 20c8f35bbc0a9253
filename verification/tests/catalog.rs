//! The autonomous catalog, scripts, scheduler rules, and the integer
//! trigonometry they rest on.

use ferris_core::angle::wrap_half;
use ferris_core::auto::{
    Auto, AutoTask, ScriptRunner, bottom_close, run_auto, top_stop,
};
use ferris_core::scheduler::{
    RobotModes, achieved_rate_millihz, cancel_auto, sleep_budget_us, start_auto,
};
use ferris_core::trig::{atan2_milli, cos_milli, isqrt, sin_milli};

#[test]
fn catalog_names_and_count() {
    assert_eq!(Auto::len(), 14);
    let names = Auto::names();
    assert_eq!(names.len(), 14);
    assert_eq!(Auto::TopStop.name(), "near amp 4 note, stop b4 last");
    assert_eq!(names[0], "near amp 4 note, stop b4 last");
    assert_eq!(Auto::Nop.name(), "hit the bell with the glock a couple times");
}

#[test]
fn picker_preselects_default() {
    let picker = Auto::picker();
    assert_eq!(picker.options.len(), 14);
    assert_eq!(picker.selected, "7");
    assert_eq!(picker.options[7], "zero intake rotation");
}

#[test]
fn selection_resolves_or_falls_back() {
    assert_eq!(Auto::resolve(&"0".to_owned()), Auto::TopStop);
    assert_eq!(Auto::resolve(&"13".to_owned()), Auto::Nop);
    // An invalid selection falls back to the default routine.
    assert_eq!(Auto::resolve(&"99".to_owned()), Auto::ZeroIntake);
    assert_eq!(Auto::resolve(&"banana".to_owned()), Auto::ZeroIntake);
    assert_eq!(Auto::resolve(&String::new()), Auto::ZeroIntake);
}

#[test]
fn scripts_have_their_steps() {
    assert_eq!(top_stop().len(), 13);
    assert_eq!(bottom_close().len(), 13);
    assert_eq!(run_auto(Auto::Nop).len(), 0);
    assert_eq!(run_auto(Auto::ZeroIntake).len(), 1);
    // The first step of a scoring routine seeds the pose.
    let script = top_stop();
    assert!(matches!(script[0].first[0], AutoTask::SetPose(469_000, 7_034_497)));
}

#[test]
fn runner_walks_in_order() {
    let mut runner = ScriptRunner::new(run_auto(Auto::TopWait));
    let mut seen = 0;
    while !runner.done() {
        assert!(runner.current().is_some());
        runner.advance();
        seen += 1;
        assert!(seen <= 5);
    }
    assert_eq!(seen, 5);
    assert!(runner.current().is_none());
    // Advancing past the end changes nothing.
    runner.advance();
    assert!(runner.done());
}

#[test]
fn scheduler_transitions() {
    let disabled = RobotModes { enabled: false, teleop: false, auto: true, test: false };
    let auto_on = RobotModes { enabled: true, teleop: false, auto: true, test: false };
    let teleop_on = RobotModes { enabled: true, teleop: true, auto: false, test: false };
    // The script starts exactly once, on entering enabled-autonomous.
    assert!(start_auto(&auto_on, false));
    assert!(!start_auto(&auto_on, true));
    assert!(!start_auto(&disabled, false));
    // It is cancelled on any transition out.
    assert!(cancel_auto(&teleop_on, true));
    assert!(cancel_auto(&disabled, true));
    assert!(!cancel_auto(&auto_on, true));
}

#[test]
fn sleep_budget_holds_the_rate() {
    // 250 Hz means a 4000 us period.
    assert_eq!(sleep_budget_us(0), 4_000);
    assert_eq!(sleep_budget_us(1_500), 2_500);
    // An overrun cycle sleeps nothing.
    assert_eq!(sleep_budget_us(4_000), 0);
    assert_eq!(sleep_budget_us(9_999), 0);
    assert_eq!(achieved_rate_millihz(4_000), 250_000);
    assert_eq!(achieved_rate_millihz(8_000), 125_000);
}

#[test]
fn trig_exact_on_axes() {
    assert_eq!(sin_milli(0), 0);
    assert_eq!(sin_milli(90_000), 1_000_000);
    assert_eq!(sin_milli(180_000), 0);
    assert_eq!(sin_milli(270_000), -1_000_000);
    assert_eq!(cos_milli(0), 1_000_000);
    assert_eq!(cos_milli(90_000), 0);
    assert_eq!(cos_milli(180_000), -1_000_000);
    assert_eq!(sin_milli(-90_000), -1_000_000);
    // A 30-degree sine lands within the approximation's tolerance.
    assert!((sin_milli(30_000) - 500_000).abs() < 2_000);
}

#[test]
fn atan2_exact_on_axes_and_diagonals() {
    assert_eq!(atan2_milli(0, 1_000), 0);
    assert_eq!(atan2_milli(1_000, 0), 90_000);
    assert_eq!(atan2_milli(0, -1_000), 180_000);
    assert_eq!(atan2_milli(-1_000, 0), -90_000);
    assert_eq!(atan2_milli(707, 707), 45_000);
    assert_eq!(atan2_milli(707, -707), 135_000);
    assert_eq!(atan2_milli(-707, 707), -45_000);
    assert_eq!(atan2_milli(0, 0), 0);
}

#[test]
fn integer_sqrt_is_exact() {
    assert_eq!(isqrt(0), 0);
    assert_eq!(isqrt(1), 1);
    assert_eq!(isqrt(24), 4);
    assert_eq!(isqrt(25), 5);
    assert_eq!(isqrt(26), 5);
    assert_eq!(isqrt(u64::MAX), 0xFFFF_FFFF);
}

#[test]
fn wrap_half_band() {
    assert_eq!(wrap_half(0), 0);
    assert_eq!(wrap_half(180_000), -180_000);
    assert_eq!(wrap_half(-180_000), -180_000);
    assert_eq!(wrap_half(540_000), -180_000);
    assert_eq!(wrap_half(359_000), -1_000);
    assert_eq!(wrap_half(-365_000), -5_000);
    assert_eq!(wrap_half(725_000), 5_000);
}
