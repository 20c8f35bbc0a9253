//! Autonomous routines: the selectable catalog, each routine as an ordered
//! script of primitive steps, and the cursor that walks a script.
//!
//! A routine is data, not code: a sequence of steps, each step two lists of
//! tasks run side by side (a drive leg and the intake/shooter work that
//! overlaps it).  The scheduling loop executes the current step's tasks and
//! advances the cursor when both lists have finished, so every decision the
//! routines make — which path, which action, which timeout — is recorded
//! here and checked, while the waiting itself happens at the edge.

use vstd::prelude::*;

verus! {

/// Number of selectable autonomous routines.
pub const AUTO_COUNT: usize = 14;

/// The selectable autonomous routines.
#[derive(Clone, Copy, Debug, PartialEq, Eq, Structural)]
pub enum Auto {
    TopStop,
    BottomClose,
    TopWait,
    TopBlock,
    BottomCloseWait,
    BottomTwoLeave,
    BottomWait,
    ZeroIntake,
    StageOne,
    BottomLeave,
    BottomMidline,
    TopMid2,
    BottomWaitMid,
    Nop,
}

/// The catalog index of each routine.
pub open spec fn auto_index_spec(a: Auto) -> int {
    match a {
        Auto::TopStop => 0,
        Auto::BottomClose => 1,
        Auto::TopWait => 2,
        Auto::TopBlock => 3,
        Auto::BottomCloseWait => 4,
        Auto::BottomTwoLeave => 5,
        Auto::BottomWait => 6,
        Auto::ZeroIntake => 7,
        Auto::StageOne => 8,
        Auto::BottomLeave => 9,
        Auto::BottomMidline => 10,
        Auto::TopMid2 => 11,
        Auto::BottomWaitMid => 12,
        Auto::Nop => 13,
    }
}

/// The routine at each catalog index.
pub open spec fn auto_variant_spec(i: int) -> Auto {
    if i == 0 { Auto::TopStop }
    else if i == 1 { Auto::BottomClose }
    else if i == 2 { Auto::TopWait }
    else if i == 3 { Auto::TopBlock }
    else if i == 4 { Auto::BottomCloseWait }
    else if i == 5 { Auto::BottomTwoLeave }
    else if i == 6 { Auto::BottomWait }
    else if i == 7 { Auto::ZeroIntake }
    else if i == 8 { Auto::StageOne }
    else if i == 9 { Auto::BottomLeave }
    else if i == 10 { Auto::BottomMidline }
    else if i == 11 { Auto::TopMid2 }
    else if i == 12 { Auto::BottomWaitMid }
    else { Auto::Nop }
}

/// The display name of each routine.
pub open spec fn auto_name_spec(a: Auto) -> Seq<char> {
    match a {
        Auto::Nop => "hit the bell with the glock a couple times"@,
        Auto::StageOne => "Stage one, 10s delay, exit"@,
        Auto::TopStop => "near amp 4 note, stop b4 last"@,
        Auto::ZeroIntake => "zero intake rotation"@,
        Auto::BottomClose => "near stage start 4 note"@,
        Auto::BottomCloseWait => "near stage start 2 note, delayed start"@,
        Auto::BottomTwoLeave => "near stage start 2 note, leave"@,
        Auto::BottomWait => "near stage wait 7s one note"@,
        Auto::TopWait => "near amp wait 10s one note"@,
        Auto::TopBlock => "near amp wait one note stop mid"@,
        Auto::BottomLeave => "bottom leave"@,
        Auto::BottomMidline => "Bottom Midline"@,
        Auto::TopMid2 => "Top mid 2"@,
        Auto::BottomWaitMid => "bottom wait mid"@,
    }
}

/// The decimal label of a catalog index.
pub open spec fn index_label_spec(i: int) -> Seq<char> {
    if i == 0 { "0"@ } else if i == 1 { "1"@ } else if i == 2 { "2"@ }
    else if i == 3 { "3"@ } else if i == 4 { "4"@ } else if i == 5 { "5"@ }
    else if i == 6 { "6"@ } else if i == 7 { "7"@ } else if i == 8 { "8"@ }
    else if i == 9 { "9"@ } else if i == 10 { "10"@ } else if i == 11 { "11"@ }
    else if i == 12 { "12"@ } else { "13"@ }
}

impl Auto {
    /// The display name of this routine.
    pub fn name(&self) -> (r: &'static str)
        ensures
            r@ == auto_name_spec(*self),
    {
        match self {
            Auto::Nop => "hit the bell with the glock a couple times",
            Auto::StageOne => "Stage one, 10s delay, exit",
            Auto::TopStop => "near amp 4 note, stop b4 last",
            Auto::ZeroIntake => "zero intake rotation",
            Auto::BottomClose => "near stage start 4 note",
            Auto::BottomCloseWait => "near stage start 2 note, delayed start",
            Auto::BottomTwoLeave => "near stage start 2 note, leave",
            Auto::BottomWait => "near stage wait 7s one note",
            Auto::TopWait => "near amp wait 10s one note",
            Auto::TopBlock => "near amp wait one note stop mid",
            Auto::BottomLeave => "bottom leave",
            Auto::BottomMidline => "Bottom Midline",
            Auto::TopMid2 => "Top mid 2",
            Auto::BottomWaitMid => "bottom wait mid",
        }
    }

    /// How many routines the catalog holds.
    pub fn len() -> (r: usize)
        ensures
            r == AUTO_COUNT,
    {
        AUTO_COUNT
    }

    /// This routine's catalog index.
    pub fn index(&self) -> (r: usize)
        ensures
            r == auto_index_spec(*self),
            r < AUTO_COUNT,
    {
        match self {
            Auto::TopStop => 0,
            Auto::BottomClose => 1,
            Auto::TopWait => 2,
            Auto::TopBlock => 3,
            Auto::BottomCloseWait => 4,
            Auto::BottomTwoLeave => 5,
            Auto::BottomWait => 6,
            Auto::ZeroIntake => 7,
            Auto::StageOne => 8,
            Auto::BottomLeave => 9,
            Auto::BottomMidline => 10,
            Auto::TopMid2 => 11,
            Auto::BottomWaitMid => 12,
            Auto::Nop => 13,
        }
    }

    /// The routine at a catalog index.
    pub fn from_index(i: usize) -> (r: Auto)
        requires
            i < AUTO_COUNT,
        ensures
            r == auto_variant_spec(i as int),
    {
        if i == 0 { Auto::TopStop }
        else if i == 1 { Auto::BottomClose }
        else if i == 2 { Auto::TopWait }
        else if i == 3 { Auto::TopBlock }
        else if i == 4 { Auto::BottomCloseWait }
        else if i == 5 { Auto::BottomTwoLeave }
        else if i == 6 { Auto::BottomWait }
        else if i == 7 { Auto::ZeroIntake }
        else if i == 8 { Auto::StageOne }
        else if i == 9 { Auto::BottomLeave }
        else if i == 10 { Auto::BottomMidline }
        else if i == 11 { Auto::TopMid2 }
        else if i == 12 { Auto::BottomWaitMid }
        else { Auto::Nop }
    }

    /// The display names of all routines, in catalog order.
    pub fn names() -> (r: Vec<String>)
        ensures
            r@.len() == AUTO_COUNT,
            forall|i: int| 0 <= i < AUTO_COUNT
                ==> (#[trigger] r@[i])@ == auto_name_spec(auto_variant_spec(i)),
    {
        let mut out: Vec<String> = Vec::new();
        let mut i: usize = 0;
        while i < AUTO_COUNT
            invariant
                i <= AUTO_COUNT,
                out@.len() == i,
                forall|j: int| 0 <= j < i
                    ==> (#[trigger] out@[j])@ == auto_name_spec(auto_variant_spec(j)),
            decreases AUTO_COUNT - i,
        {
            let name = Auto::from_index(i).name();
            out.push(name.to_owned());
            i = i + 1;
        }
        out
    }

    /// The dashboard chooser entry for the catalog: all names, with the
    /// default routine's index preselected.
    pub fn picker() -> (r: Picker)
        ensures
            r.options@.len() == AUTO_COUNT,
            forall|i: int| 0 <= i < AUTO_COUNT
                ==> (#[trigger] r.options@[i])@ == auto_name_spec(auto_variant_spec(i)),
            r.selected@ == index_label_spec(auto_index_spec(Auto::default_auto_spec())),
    {
        Picker { options: Auto::names(), selected: index_label(Auto::default_value().index()) }
    }

    /// The routine selected when nothing valid was chosen.
    pub open spec fn default_auto_spec() -> Auto {
        Auto::ZeroIntake
    }

    /// The default routine: zero the intake and do nothing else.
    pub fn default_value() -> (r: Auto)
        ensures
            r == Auto::default_auto_spec(),
    {
        Auto::ZeroIntake
    }

    /// Resolve a dashboard selection string: the decimal label of a catalog
    /// index selects that routine, anything else falls back to the default.
    pub fn resolve(selected: &String) -> (r: Auto)
        ensures
            forall|i: int| 0 <= i < AUTO_COUNT && selected@ == index_label_spec(i)
                ==> r == auto_variant_spec(i),
            (forall|i: int| 0 <= i < AUTO_COUNT ==> selected@ != index_label_spec(i))
                ==> r == Auto::default_auto_spec(),
    {
        let mut i: usize = 0;
        while i < AUTO_COUNT
            invariant
                i <= AUTO_COUNT,
                forall|j: int| 0 <= j < i ==> selected@ != index_label_spec(j),
            decreases AUTO_COUNT - i,
        {
            let label = index_label(i);
            if selected.eq(&label) {
                proof {
                    lemma_index_labels_distinct();
                }
                return Auto::from_index(i);
            }
            i = i + 1;
        }
        Auto::default_value()
    }
}

impl Default for Auto {
    /// The default routine: zero the intake.
    fn default() -> (r: Auto)
        ensures
            r == Auto::default_auto_spec(),
    {
        Auto::ZeroIntake
    }
}

/// No two catalog indices share a decimal label.
proof fn lemma_index_labels_distinct()
    ensures
        forall|i: int, j: int|
            0 <= i < AUTO_COUNT && 0 <= j < AUTO_COUNT && i != j
                ==> index_label_spec(i) != index_label_spec(j),
{
    reveal_strlit("0");
    reveal_strlit("1");
    reveal_strlit("2");
    reveal_strlit("3");
    reveal_strlit("4");
    reveal_strlit("5");
    reveal_strlit("6");
    reveal_strlit("7");
    reveal_strlit("8");
    reveal_strlit("9");
    reveal_strlit("10");
    reveal_strlit("11");
    reveal_strlit("12");
    reveal_strlit("13");
    assert forall|i: int, j: int|
        0 <= i < AUTO_COUNT && 0 <= j < AUTO_COUNT && i != j implies index_label_spec(i)
        != index_label_spec(j) by {
        let a = index_label_spec(i);
        let b = index_label_spec(j);
        if a.len() == b.len() {
            if a.len() == 1 {
                assert(a[0] != b[0]);
            } else {
                assert(a[1] != b[1]);
            }
            assert(a != b);
        }
    }
}

/// The decimal label of a catalog index.
fn index_label(i: usize) -> (r: String)
    requires
        i < AUTO_COUNT,
    ensures
        r@ == index_label_spec(i as int),
{
    let s: &str = if i == 0 { "0" } else if i == 1 { "1" } else if i == 2 { "2" }
        else if i == 3 { "3" } else if i == 4 { "4" } else if i == 5 { "5" }
        else if i == 6 { "6" } else if i == 7 { "7" } else if i == 8 { "8" }
        else if i == 9 { "9" } else if i == 10 { "10" } else if i == 11 { "11" }
        else if i == 12 { "12" } else { "13" };
    s.to_owned()
}

/// A dashboard chooser: the options shown and the selected index as text.
#[derive(Debug, Clone)]
pub struct Picker {
    /// The display names offered.
    pub options: Vec<String>,
    /// The selected catalog index, in decimal.
    pub selected: String,
}

/// One primitive of an autonomous script.  Motor values are milli-fraction,
/// velocities RPM, poses micrometers, times milliseconds.
#[derive(Clone, Copy, Debug)]
pub enum AutoTask {
    /// Seed the odometry at a field pose and zero the gyro heading.
    SetPose(i64, i64),
    /// Zero the gyro and take the current angle as the field heading.
    ResetHeading,
    /// Wait for a fixed time.
    Sleep(u64),
    /// Open-loop flywheel command.
    SetShooter(i64),
    /// Closed-loop flywheel velocity, RPM.
    SetShooterVelocity(i64),
    /// Open-loop intake roller command.
    SetRollers(i64),
    /// Open-loop feeder command.
    SetFeeder(i64),
    /// Run the intake zeroing sequence.
    ZeroIntake,
    /// Lower the intake to its deployed angle.
    LowerIntake,
    /// Raise the intake to its stowed angle.
    RaiseIntake,
    /// Run the grab sequence, giving up after the timeout.
    Grab { timeout_ms: u64 },
    /// Run the hand-off sequence, giving up after the timeout.
    Stage { timeout_ms: u64 },
    /// Spin up, fire through rollers and feeder until the flywheel sags;
    /// a zero timeout means unbounded.
    Shoot(u64),
    /// Like `Shoot`, but hold the feed at least this long.
    ShootLong { hold_ms: u64 },
    /// Spin up past 5000 RPM, feed gently for 300 ms, stop the feeder.
    FeedShot,
    /// Fire through the feeder alone until the flywheel sags.
    SushiShoot,
    /// Follow the named path to completion at the default tolerance.
    Drive(&'static str),
    /// Follow the named path with a custom position tolerance, micrometers.
    DriveErr(&'static str, i64),
}

/// One step of a script: two task lists run side by side; the step is
/// complete when both lists have finished.
pub struct AutoStep {
    /// The first concurrent task list, usually the drive leg.
    pub first: Vec<AutoTask>,
    /// The second concurrent task list, usually intake or shooter work.
    pub second: Vec<AutoTask>,
}

/// The number of steps in each routine's script.
pub open spec fn auto_script_len_spec(a: Auto) -> int {
    match a {
        Auto::TopStop => 13,
        Auto::BottomClose => 13,
        Auto::TopWait => 5,
        Auto::TopBlock => 5,
        Auto::BottomCloseWait => 7,
        Auto::BottomTwoLeave => 8,
        Auto::BottomWait => 5,
        Auto::ZeroIntake => 1,
        Auto::StageOne => 5,
        Auto::BottomLeave => 3,
        Auto::BottomMidline => 8,
        Auto::TopMid2 => 12,
        Auto::BottomWaitMid => 8,
        Auto::Nop => 0,
    }
}

/// A step with only a sequential task list.
fn solo(first: Vec<AutoTask>) -> (r: AutoStep)
    ensures
        r.first@ == first@,
        r.second@.len() == 0,
{
    AutoStep { first, second: Vec::new() }
}

/// A step of two concurrent task lists.
fn par(first: Vec<AutoTask>, second: Vec<AutoTask>) -> (r: AutoStep)
    ensures
        r.first@ == first@,
        r.second@ == second@,
{
    AutoStep { first, second }
}

/// Four-note routine from the amp side, stopping before the last note.
pub fn top_stop() -> (r: Vec<AutoStep>)
    ensures
        r@.len() == auto_script_len_spec(Auto::TopStop),
        r@[0].first@[0] == AutoTask::SetPose(469_000, 7_034_497),
        r@[0].first@[1] == AutoTask::ResetHeading,
{
    let mut s: Vec<AutoStep> = Vec::new();
    s.push(solo(vec![AutoTask::SetPose(469_000, 7_034_497), AutoTask::ResetHeading,
        AutoTask::SetShooterVelocity(5500)]));
    s.push(par(vec![AutoTask::Drive("TopStop.1")], vec![AutoTask::ZeroIntake]));
    s.push(par(vec![AutoTask::SushiShoot], vec![AutoTask::LowerIntake]));
    s.push(solo(vec![AutoTask::SetRollers(400)]));
    s.push(par(vec![AutoTask::Drive("TopStop.2")], vec![AutoTask::Grab { timeout_ms: 2000 }]));
    s.push(par(vec![AutoTask::Stage { timeout_ms: 1300 }], vec![AutoTask::Drive("TopStop.3")]));
    s.push(solo(vec![AutoTask::RaiseIntake, AutoTask::Shoot(1000), AutoTask::LowerIntake]));
    s.push(par(vec![AutoTask::Drive("TopStop.4")], vec![AutoTask::Grab { timeout_ms: 2000 }]));
    s.push(par(vec![AutoTask::Stage { timeout_ms: 1300 }], vec![AutoTask::Drive("TopStop.5")]));
    s.push(solo(vec![AutoTask::RaiseIntake, AutoTask::Shoot(1000), AutoTask::LowerIntake]));
    s.push(par(vec![AutoTask::DriveErr("TopStop.6", 350_000)],
        vec![AutoTask::Grab { timeout_ms: 2500 }]));
    s.push(par(vec![AutoTask::Stage { timeout_ms: 1300 }], vec![AutoTask::Drive("TopStop.7")]));
    s.push(solo(vec![AutoTask::RaiseIntake, AutoTask::Shoot(0), AutoTask::SetShooter(0)]));
    s
}

/// Four-note routine from the stage side.
pub fn bottom_close() -> (r: Vec<AutoStep>)
    ensures
        r@.len() == auto_script_len_spec(Auto::BottomClose),
        r@[0].first@[0] == AutoTask::SetPose(480_835, 4_043_473),
        r@[0].first@[1] == AutoTask::ResetHeading,
{
    let mut s: Vec<AutoStep> = Vec::new();
    s.push(solo(vec![AutoTask::SetPose(480_835, 4_043_473), AutoTask::ResetHeading,
        AutoTask::SetShooterVelocity(5500)]));
    s.push(par(vec![AutoTask::Drive("BottomClose.1")], vec![AutoTask::ZeroIntake]));
    s.push(par(vec![AutoTask::SushiShoot], vec![AutoTask::LowerIntake]));
    s.push(solo(vec![AutoTask::SetRollers(400)]));
    s.push(par(vec![AutoTask::Drive("BottomClose.2")],
        vec![AutoTask::Grab { timeout_ms: 2500 }]));
    s.push(par(vec![AutoTask::Stage { timeout_ms: 1300 }],
        vec![AutoTask::Drive("BottomClose.3")]));
    s.push(solo(vec![AutoTask::RaiseIntake, AutoTask::Shoot(0), AutoTask::LowerIntake]));
    s.push(par(vec![AutoTask::Drive("BottomClose.4")],
        vec![AutoTask::Grab { timeout_ms: 2000 }]));
    s.push(par(vec![AutoTask::Stage { timeout_ms: 500 }],
        vec![AutoTask::Drive("BottomClose.5")]));
    s.push(solo(vec![AutoTask::RaiseIntake, AutoTask::Shoot(0), AutoTask::LowerIntake]));
    s.push(par(vec![AutoTask::Drive("BottomClose.6")],
        vec![AutoTask::Grab { timeout_ms: 2500 }]));
    s.push(par(vec![AutoTask::Stage { timeout_ms: 1300 }],
        vec![AutoTask::Drive("BottomClose.7")]));
    s.push(solo(vec![AutoTask::RaiseIntake, AutoTask::ShootLong { hold_ms: 570 },
        AutoTask::SetShooter(0)]));
    s
}

/// Two-note routine from the stage side with a delayed start.
pub fn bottom_close_wait() -> (r: Vec<AutoStep>)
    ensures
        r@.len() == auto_script_len_spec(Auto::BottomCloseWait),
        r@[0].first@[0] == AutoTask::SetPose(480_835, 4_043_473),
        r@[0].first@[1] == AutoTask::ResetHeading,
{
    let mut s: Vec<AutoStep> = Vec::new();
    s.push(solo(vec![AutoTask::SetPose(480_835, 4_043_473), AutoTask::ResetHeading,
        AutoTask::SetShooter(1000), AutoTask::Sleep(4000)]));
    s.push(par(vec![AutoTask::Drive("BottomCloseWait.1")], vec![AutoTask::ZeroIntake]));
    s.push(par(vec![AutoTask::FeedShot], vec![AutoTask::LowerIntake]));
    s.push(solo(vec![AutoTask::SetRollers(400)]));
    s.push(par(vec![AutoTask::Drive("BottomCloseWait.2")],
        vec![AutoTask::Grab { timeout_ms: 3000 }]));
    s.push(par(vec![AutoTask::Stage { timeout_ms: 2500 }],
        vec![AutoTask::Drive("BottomCloseWait.3")]));
    s.push(solo(vec![AutoTask::Shoot(0), AutoTask::SetShooter(0)]));
    s
}

/// Two-note routine from the stage side, then leave the zone.
pub fn bottom_two_leave() -> (r: Vec<AutoStep>)
    ensures
        r@.len() == auto_script_len_spec(Auto::BottomTwoLeave),
        r@[0].first@[0] == AutoTask::SetPose(480_835, 4_043_473),
        r@[0].first@[1] == AutoTask::ResetHeading,
{
    let mut s: Vec<AutoStep> = Vec::new();
    s.push(solo(vec![AutoTask::SetPose(480_835, 4_043_473), AutoTask::ResetHeading,
        AutoTask::SetShooterVelocity(5500)]));
    s.push(par(vec![AutoTask::Drive("BottomTwoLeave.1")], vec![AutoTask::ZeroIntake]));
    s.push(par(vec![AutoTask::SushiShoot], vec![AutoTask::LowerIntake]));
    s.push(solo(vec![AutoTask::SetRollers(400)]));
    s.push(par(vec![AutoTask::Drive("BottomTwoLeave.2")],
        vec![AutoTask::Grab { timeout_ms: 3000 }]));
    s.push(par(vec![AutoTask::Stage { timeout_ms: 2500 }],
        vec![AutoTask::Drive("BottomTwoLeave.3")]));
    s.push(solo(vec![AutoTask::RaiseIntake, AutoTask::Shoot(0), AutoTask::SetShooter(0)]));
    s.push(solo(vec![AutoTask::Drive("BottomTwoLeave2.1")]));
    s
}

/// One-note routine from the stage side after a seven-second wait.
pub fn bottom_one() -> (r: Vec<AutoStep>)
    ensures
        r@.len() == auto_script_len_spec(Auto::BottomWait),
        r@[0].first@[0] == AutoTask::SetPose(480_835, 4_043_473),
        r@[0].first@[1] == AutoTask::ResetHeading,
{
    let mut s: Vec<AutoStep> = Vec::new();
    s.push(solo(vec![AutoTask::SetPose(480_835, 4_043_473), AutoTask::ResetHeading,
        AutoTask::Sleep(7000), AutoTask::SetShooter(1000)]));
    s.push(par(vec![AutoTask::Drive("BottomOne.1")], vec![AutoTask::ZeroIntake]));
    s.push(par(vec![AutoTask::FeedShot], vec![AutoTask::LowerIntake]));
    s.push(solo(vec![AutoTask::SetShooter(0)]));
    s.push(solo(vec![AutoTask::Drive("BottomOne.2")]));
    s
}

/// One-note routine from the amp side after a ten-second wait.
pub fn top_one() -> (r: Vec<AutoStep>)
    ensures
        r@.len() == auto_script_len_spec(Auto::TopWait),
        r@[0].first@[0] == AutoTask::SetPose(469_201, 7_034_497),
        r@[0].first@[1] == AutoTask::ResetHeading,
{
    let mut s: Vec<AutoStep> = Vec::new();
    s.push(solo(vec![AutoTask::SetPose(469_201, 7_034_497), AutoTask::ResetHeading,
        AutoTask::SetShooter(1000)]));
    s.push(par(vec![AutoTask::ZeroIntake], vec![AutoTask::Sleep(10_000)]));
    s.push(solo(vec![AutoTask::Drive("TopOne.1")]));
    s.push(solo(vec![AutoTask::SushiShoot, AutoTask::SetShooter(0)]));
    s.push(solo(vec![AutoTask::Drive("TopOne.2")]));
    s
}

/// One-note routine from the amp side, stopping mid-field to block.
pub fn top_one_block() -> (r: Vec<AutoStep>)
    ensures
        r@.len() == auto_script_len_spec(Auto::TopBlock),
        r@[0].first@[0] == AutoTask::SetPose(469_201, 7_034_497),
        r@[0].first@[1] == AutoTask::ResetHeading,
{
    let mut s: Vec<AutoStep> = Vec::new();
    s.push(solo(vec![AutoTask::SetPose(469_201, 7_034_497), AutoTask::ResetHeading,
        AutoTask::SetShooter(1000)]));
    s.push(par(vec![AutoTask::ZeroIntake], vec![AutoTask::Sleep(6000)]));
    s.push(solo(vec![AutoTask::Drive("TopOneBlock.1")]));
    s.push(solo(vec![AutoTask::FeedShot, AutoTask::SetShooter(0)]));
    s.push(solo(vec![AutoTask::Drive("TopOneBlock.2")]));
    s
}

/// Leave the starting zone from the bottom, nothing more.
pub fn bottom_leave() -> (r: Vec<AutoStep>)
    ensures
        r@.len() == auto_script_len_spec(Auto::BottomLeave),
        r@[0].first@[0] == AutoTask::SetPose(469_412, 2_074_124),
        r@[0].first@[1] == AutoTask::ResetHeading,
{
    let mut s: Vec<AutoStep> = Vec::new();
    s.push(solo(vec![AutoTask::SetPose(469_412, 2_074_124), AutoTask::ResetHeading]));
    s.push(par(vec![AutoTask::Drive("BottomLeave.1")], vec![AutoTask::ZeroIntake]));
    s.push(solo(vec![AutoTask::Sleep(10_000), AutoTask::LowerIntake,
        AutoTask::SetShooter(5_500_000)]));
    s
}

/// Two-note routine along the bottom midline.
pub fn bottom_mid() -> (r: Vec<AutoStep>)
    ensures
        r@.len() == auto_script_len_spec(Auto::BottomMidline),
        r@[0].first@[0] == AutoTask::SetPose(469_412, 4_043_473),
        r@[0].first@[1] == AutoTask::ResetHeading,
{
    let mut s: Vec<AutoStep> = Vec::new();
    s.push(solo(vec![AutoTask::SetPose(469_412, 4_043_473), AutoTask::ResetHeading,
        AutoTask::SetShooterVelocity(5500)]));
    s.push(par(vec![AutoTask::Drive("BottomMid.1")], vec![AutoTask::ZeroIntake]));
    s.push(solo(vec![AutoTask::SushiShoot]));
    s.push(solo(vec![AutoTask::Drive("BottomMid.2")]));
    s.push(par(vec![AutoTask::Drive("BottomMid.3")], vec![AutoTask::Sleep(3000),
        AutoTask::LowerIntake, AutoTask::SetRollers(400),
        AutoTask::Grab { timeout_ms: 2500 }]));
    s.push(par(vec![AutoTask::Stage { timeout_ms: 2500 }], vec![AutoTask::Drive("BottomMid.4")]));
    s.push(solo(vec![AutoTask::Drive("BottomMid.4")]));
    s.push(solo(vec![AutoTask::Shoot(0), AutoTask::SetShooter(0), AutoTask::SetFeeder(0),
        AutoTask::SetRollers(0)]));
    s
}

/// Three-leg midline routine from the amp side.
pub fn top_mid_two() -> (r: Vec<AutoStep>)
    ensures
        r@.len() == auto_script_len_spec(Auto::TopMid2),
        r@[0].first@[0] == AutoTask::SetPose(469_000, 7_034_497),
        r@[0].first@[1] == AutoTask::ResetHeading,
{
    let mut s: Vec<AutoStep> = Vec::new();
    s.push(solo(vec![AutoTask::SetPose(469_000, 7_034_497), AutoTask::ResetHeading,
        AutoTask::SetShooterVelocity(5500)]));
    s.push(par(vec![AutoTask::Drive("TopMid.1")], vec![AutoTask::ZeroIntake]));
    s.push(par(vec![AutoTask::SushiShoot], vec![AutoTask::LowerIntake]));
    s.push(solo(vec![AutoTask::SetRollers(400)]));
    s.push(par(vec![AutoTask::Drive("TopMid.2")], vec![AutoTask::Grab { timeout_ms: 2000 }]));
    s.push(par(vec![AutoTask::Stage { timeout_ms: 1300 }], vec![AutoTask::Drive("TopMid.3")]));
    s.push(solo(vec![AutoTask::RaiseIntake, AutoTask::Shoot(1000)]));
    s.push(solo(vec![AutoTask::Drive("TopMid.4")]));
    s.push(par(vec![AutoTask::Drive("TopMid.5")], vec![AutoTask::Sleep(1500),
        AutoTask::LowerIntake, AutoTask::Grab { timeout_ms: 2000 }]));
    s.push(par(vec![AutoTask::Stage { timeout_ms: 2000 }], vec![AutoTask::Drive("TopMid.6")]));
    s.push(solo(vec![AutoTask::Drive("TopMid.7")]));
    s.push(solo(vec![AutoTask::Shoot(0), AutoTask::SetShooter(0)]));
    s
}

/// One-note routine waiting two seconds, then a midline pickup.
pub fn bottom_wait_mid() -> (r: Vec<AutoStep>)
    ensures
        r@.len() == auto_script_len_spec(Auto::BottomWaitMid),
        r@[0].first@[0] == AutoTask::SetPose(469_000, 2_086_236),
        r@[0].first@[1] == AutoTask::ResetHeading,
{
    let mut s: Vec<AutoStep> = Vec::new();
    s.push(solo(vec![AutoTask::SetPose(469_000, 2_086_236), AutoTask::ResetHeading]));
    s.push(par(vec![AutoTask::ZeroIntake], vec![AutoTask::Sleep(2000)]));
    s.push(solo(vec![AutoTask::SetShooter(5_500_000)]));
    s.push(solo(vec![AutoTask::Drive("BottomWaitMid.1")]));
    s.push(solo(vec![AutoTask::SushiShoot]));
    s.push(par(vec![AutoTask::Drive("BottomWaitMid.2")], vec![AutoTask::Sleep(3000),
        AutoTask::SetRollers(400), AutoTask::Grab { timeout_ms: 2500 }]));
    s.push(par(vec![AutoTask::Drive("BottomWaitMid.2")],
        vec![AutoTask::Stage { timeout_ms: 3000 }]));
    s.push(solo(vec![AutoTask::Shoot(0), AutoTask::SetShooter(0)]));
    s
}

/// Score the preloaded note after a ten-second delay, then exit.
pub fn stage_one() -> (r: Vec<AutoStep>)
    ensures
        r@.len() == auto_script_len_spec(Auto::StageOne),
        r@[0].first@[0] == AutoTask::SetPose(480_835, 4_043_473),
        r@[0].first@[1] == AutoTask::ResetHeading,
{
    let mut s: Vec<AutoStep> = Vec::new();
    s.push(solo(vec![AutoTask::SetPose(480_835, 4_043_473), AutoTask::ResetHeading,
        AutoTask::Sleep(10_000), AutoTask::SetShooter(1000)]));
    s.push(par(vec![AutoTask::Drive("BottomOne.1")], vec![AutoTask::ZeroIntake]));
    s.push(par(vec![AutoTask::SushiShoot], vec![AutoTask::LowerIntake]));
    s.push(solo(vec![AutoTask::SetShooter(0)]));
    s.push(solo(vec![AutoTask::Drive("BottomOne.2")]));
    s
}

/// The script of a routine: the ordered steps the scheduling loop executes.
pub fn run_auto(auto: Auto) -> (r: Vec<AutoStep>)
    ensures
        r@.len() == auto_script_len_spec(auto),
{
    match auto {
        Auto::TopStop => top_stop(),
        Auto::BottomClose => bottom_close(),
        Auto::TopWait => top_one(),
        Auto::TopBlock => top_one_block(),
        Auto::BottomCloseWait => bottom_close_wait(),
        Auto::BottomTwoLeave => bottom_two_leave(),
        Auto::BottomWait => bottom_one(),
        Auto::ZeroIntake => {
            let mut s: Vec<AutoStep> = Vec::new();
            s.push(solo(vec![AutoTask::ZeroIntake]));
            s
        },
        Auto::StageOne => stage_one(),
        Auto::BottomLeave => bottom_leave(),
        Auto::BottomMidline => bottom_mid(),
        Auto::TopMid2 => top_mid_two(),
        Auto::BottomWaitMid => bottom_wait_mid(),
        Auto::Nop => Vec::new(),
    }
}

/// A cursor over a script: the scheduling loop reads the current step,
/// executes its two task lists, and advances when both are done.
pub struct ScriptRunner {
    /// The script being executed.
    pub steps: Vec<AutoStep>,
    /// Index of the current step; equal to the length when finished.
    pub index: usize,
}

impl ScriptRunner {
    /// The cursor never passes the end of the script.
    pub open spec fn wf(self) -> bool {
        self.index <= self.steps@.len()
    }

    /// Start a script from its first step.
    pub fn new(steps: Vec<AutoStep>) -> (r: ScriptRunner)
        ensures
            r.wf(),
            r.steps@ == steps@,
            r.index == 0,
    {
        ScriptRunner { steps, index: 0 }
    }

    /// The step to execute now, or nothing when the script is finished.
    pub fn current(&self) -> (r: Option<&AutoStep>)
        requires
            self.wf(),
        ensures
            self.index < self.steps@.len() ==> matches!(r, Some(_)),
            self.index == self.steps@.len() ==> matches!(r, None::<&AutoStep>),
    {
        if self.index < self.steps.len() {
            Some(&self.steps[self.index])
        } else {
            None
        }
    }

    /// Whether every step has been executed.
    pub fn done(&self) -> (r: bool)
        requires
            self.wf(),
        ensures
            r == (self.index == self.steps@.len()),
    {
        self.index == self.steps.len()
    }

    /// Move past the current step; past the end it changes nothing.
    pub fn advance(&mut self)
        requires
            old(self).wf(),
        ensures
            final(self).wf(),
            final(self).steps@ == old(self).steps@,
            old(self).index < old(self).steps@.len()
                ==> final(self).index == old(self).index + 1,
            old(self).index == old(self).steps@.len()
                ==> final(self).index == old(self).index,
    {
        if self.index < self.steps.len() {
            self.index = self.index + 1;
        }
    }
}

} // verus!
