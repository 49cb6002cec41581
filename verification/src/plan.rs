use vstd::prelude::*;

use crate::geometry::{midpoint, mid_coordinate, MoveCommand};

verus! {

/// One primitive of a gesture: a pointer-driver action, or a mandatory
/// pause before the next action may begin.
#[derive(Clone, Copy, Debug, PartialEq, Eq, Structural)]
pub enum Step {
    /// Place the pointer at the given absolute screen coordinate.
    MoveTo(i32, i32),
    /// Press the left button at the current pointer location.
    Press,
    /// Release the left button at the current pointer location.
    Release,
    /// Press and release the left button at the current pointer location.
    Click,
    /// Pause for at least the given number of milliseconds.
    Wait(u64),
}

/// Which gesture a move command is carried out as: a press-move-release
/// drag, or two independent clicks. Target applications vary in which of
/// the two they recognize as a move, so the choice is the caller's.
#[derive(Clone, Copy, Debug, PartialEq, Eq, Structural)]
pub enum GestureMode {
    Drag,
    TwoClick,
}

/// Least settle time after moving onto the drag source.
pub const MIN_APPROACH_SETTLE_MS: u64 = 250;

/// Least settle time after pressing, before any motion: without it many
/// targets take the gesture for a plain click.
pub const MIN_GRIP_SETTLE_MS: u64 = 350;

/// Least settle time at the intermediate waypoint of a drag.
pub const MIN_WAYPOINT_SETTLE_MS: u64 = 100;

/// Least settle time at the drag destination before the release.
pub const MIN_ARRIVE_SETTLE_MS: u64 = 300;

/// Least settle time after the release, before any further action.
pub const MIN_DROP_SETTLE_MS: u64 = 200;

/// Least settle time between moving onto a click target and clicking.
pub const MIN_CLICK_SETTLE_MS: u64 = 100;

/// Least settle time after a click.
pub const MIN_POST_CLICK_MS: u64 = 50;

/// Least pause between the two clicks of a two-click move.
pub const MIN_BETWEEN_CLICKS_MS: u64 = 300;

/// The pause, in milliseconds, taken at each point of a gesture. The
/// durations are a settle-time discipline: a target application needs time
/// after each pointer event before it reliably recognizes the next one. A
/// profile may lengthen any pause but must not fall below the calibrated
/// minimums (see [`TimingProfile::meets_minimums`]).
#[derive(Clone, Copy, Debug, PartialEq, Eq, Structural)]
pub struct TimingProfile {
    pub approach_settle_ms: u64,
    pub grip_settle_ms: u64,
    pub waypoint_settle_ms: u64,
    pub arrive_settle_ms: u64,
    pub drop_settle_ms: u64,
    pub click_settle_ms: u64,
    pub post_click_ms: u64,
    pub between_clicks_ms: u64,
}

impl TimingProfile {
    /// Every pause is at least its calibrated minimum.
    pub open spec fn meets_minimums(self) -> bool {
        &&& self.approach_settle_ms >= MIN_APPROACH_SETTLE_MS
        &&& self.grip_settle_ms >= MIN_GRIP_SETTLE_MS
        &&& self.waypoint_settle_ms >= MIN_WAYPOINT_SETTLE_MS
        &&& self.arrive_settle_ms >= MIN_ARRIVE_SETTLE_MS
        &&& self.drop_settle_ms >= MIN_DROP_SETTLE_MS
        &&& self.click_settle_ms >= MIN_CLICK_SETTLE_MS
        &&& self.post_click_ms >= MIN_POST_CLICK_MS
        &&& self.between_clicks_ms >= MIN_BETWEEN_CLICKS_MS
    }

    /// The calibrated profile: every pause exactly at its minimum.
    pub fn standard() -> (t: TimingProfile)
        ensures
            t == (TimingProfile {
                approach_settle_ms: MIN_APPROACH_SETTLE_MS,
                grip_settle_ms: MIN_GRIP_SETTLE_MS,
                waypoint_settle_ms: MIN_WAYPOINT_SETTLE_MS,
                arrive_settle_ms: MIN_ARRIVE_SETTLE_MS,
                drop_settle_ms: MIN_DROP_SETTLE_MS,
                click_settle_ms: MIN_CLICK_SETTLE_MS,
                post_click_ms: MIN_POST_CLICK_MS,
                between_clicks_ms: MIN_BETWEEN_CLICKS_MS,
            }),
            t.meets_minimums(),
    {
        TimingProfile {
            approach_settle_ms: MIN_APPROACH_SETTLE_MS,
            grip_settle_ms: MIN_GRIP_SETTLE_MS,
            waypoint_settle_ms: MIN_WAYPOINT_SETTLE_MS,
            arrive_settle_ms: MIN_ARRIVE_SETTLE_MS,
            drop_settle_ms: MIN_DROP_SETTLE_MS,
            click_settle_ms: MIN_CLICK_SETTLE_MS,
            post_click_ms: MIN_POST_CLICK_MS,
            between_clicks_ms: MIN_BETWEEN_CLICKS_MS,
        }
    }
}

/// The step sequence of a single click at `(x, y)`: move, settle, click,
/// settle.
pub open spec fn click_steps(x: i32, y: i32, t: TimingProfile) -> Seq<Step> {
    seq![
        Step::MoveTo(x, y),
        Step::Wait(t.click_settle_ms),
        Step::Click,
        Step::Wait(t.post_click_ms),
    ]
}

/// The step sequence of a drag from `cmd.from` to `cmd.to`: approach the
/// source, press, move through the waypoint to the destination, release;
/// with a settle pause after every action.
pub open spec fn drag_steps(cmd: MoveCommand, t: TimingProfile) -> Seq<Step> {
    seq![
        Step::MoveTo(cmd.from.x, cmd.from.y),
        Step::Wait(t.approach_settle_ms),
        Step::Press,
        Step::Wait(t.grip_settle_ms),
        Step::MoveTo(
            midpoint(cmd.from.x as int, cmd.to.x as int) as i32,
            midpoint(cmd.from.y as int, cmd.to.y as int) as i32,
        ),
        Step::Wait(t.waypoint_settle_ms),
        Step::MoveTo(cmd.to.x, cmd.to.y),
        Step::Wait(t.arrive_settle_ms),
        Step::Release,
        Step::Wait(t.drop_settle_ms),
    ]
}

/// The step sequence of a two-click move: a click at `cmd.from`, a pause,
/// a click at `cmd.to`.
pub open spec fn two_click_steps(cmd: MoveCommand, t: TimingProfile) -> Seq<Step> {
    click_steps(cmd.from.x, cmd.from.y, t) + seq![Step::Wait(t.between_clicks_ms)]
        + click_steps(cmd.to.x, cmd.to.y, t)
}

/// The step sequence of a move command under the chosen gesture mode.
pub open spec fn gesture_steps(cmd: MoveCommand, mode: GestureMode, t: TimingProfile) -> Seq<
    Step,
> {
    match mode {
        GestureMode::Drag => drag_steps(cmd, t),
        GestureMode::TwoClick => two_click_steps(cmd, t),
    }
}

/// The kind of a step, with the coordinates and durations abstracted away.
#[derive(Clone, Copy, Debug, PartialEq, Eq, Structural)]
pub enum StepKind {
    MoveKind,
    PressKind,
    ReleaseKind,
    ClickKind,
    WaitKind,
}

/// The kind of `s`.
pub open spec fn kind_of(s: Step) -> StepKind {
    match s {
        Step::MoveTo(_, _) => StepKind::MoveKind,
        Step::Press => StepKind::PressKind,
        Step::Release => StepKind::ReleaseKind,
        Step::Click => StepKind::ClickKind,
        Step::Wait(_) => StepKind::WaitKind,
    }
}

/// How many steps of `s` are of kind `k`.
pub open spec fn count_kind(s: Seq<Step>, k: StepKind) -> int
    decreases s.len(),
{
    if s.len() == 0 {
        0
    } else {
        count_kind(s.drop_last(), k) + if kind_of(s.last()) == k {
            1int
        } else {
            0int
        }
    }
}

/// The milliseconds paused by a step; zero for the pointer actions.
pub open spec fn wait_ms(s: Step) -> int {
    match s {
        Step::Wait(ms) => ms as int,
        _ => 0,
    }
}

/// The sum of all pauses of `s`, in milliseconds.
pub open spec fn total_wait(s: Seq<Step>) -> int
    decreases s.len(),
{
    if s.len() == 0 {
        0
    } else {
        total_wait(s.drop_last()) + wait_ms(s.last())
    }
}

/// Law: a drag carries out exactly one press and exactly one release; the
/// press, at step 2, precedes the release, at step 8; and two pointer
/// moves (waypoint and destination) stand strictly between them.
pub proof fn lemma_drag_gesture_shape(cmd: MoveCommand, t: TimingProfile)
    ensures
        count_kind(drag_steps(cmd, t), StepKind::PressKind) == 1,
        count_kind(drag_steps(cmd, t), StepKind::ReleaseKind) == 1,
        drag_steps(cmd, t).len() == 10,
        kind_of(drag_steps(cmd, t)[2]) == StepKind::PressKind,
        kind_of(drag_steps(cmd, t)[8]) == StepKind::ReleaseKind,
        count_kind(drag_steps(cmd, t).subrange(3, 8), StepKind::MoveKind) == 2,
{
    reveal_with_fuel(count_kind, 12);
    let s = drag_steps(cmd, t);
    assert(s.subrange(3, 8) =~= seq![
        Step::Wait(t.grip_settle_ms),
        Step::MoveTo(
            midpoint(cmd.from.x as int, cmd.to.x as int) as i32,
            midpoint(cmd.from.y as int, cmd.to.y as int) as i32,
        ),
        Step::Wait(t.waypoint_settle_ms),
        Step::MoveTo(cmd.to.x, cmd.to.y),
        Step::Wait(t.arrive_settle_ms),
    ]);
}

/// Law: a single click carries out exactly one click event and no press,
/// release or further click.
pub proof fn lemma_click_single_event(x: i32, y: i32, t: TimingProfile)
    ensures
        count_kind(click_steps(x, y, t), StepKind::ClickKind) == 1,
        count_kind(click_steps(x, y, t), StepKind::PressKind) == 0,
        count_kind(click_steps(x, y, t), StepKind::ReleaseKind) == 0,
{
    reveal_with_fuel(count_kind, 6);
}

/// Law: a drag pauses for the five scheduled settle times and nothing
/// else; under a profile that meets the minimums this is at least 1200 ms.
pub proof fn lemma_drag_total_wait(cmd: MoveCommand, t: TimingProfile)
    ensures
        total_wait(drag_steps(cmd, t)) == t.approach_settle_ms + t.grip_settle_ms
            + t.waypoint_settle_ms + t.arrive_settle_ms + t.drop_settle_ms,
        t.meets_minimums() ==> total_wait(drag_steps(cmd, t)) >= 1200,
{
    reveal_with_fuel(total_wait, 12);
}

/// Builds the click step sequence.
pub fn build_click_steps(x: i32, y: i32, t: &TimingProfile) -> (v: Vec<Step>)
    ensures
        v@ == click_steps(x, y, *t),
{
    let mut v: Vec<Step> = Vec::new();
    v.push(Step::MoveTo(x, y));
    v.push(Step::Wait(t.click_settle_ms));
    v.push(Step::Click);
    v.push(Step::Wait(t.post_click_ms));
    proof {
        assert(v@ =~= click_steps(x, y, *t));
    }
    v
}

/// Builds the drag step sequence.
pub fn build_drag_steps(cmd: &MoveCommand, t: &TimingProfile) -> (v: Vec<Step>)
    ensures
        v@ == drag_steps(*cmd, *t),
{
    let mid_x = mid_coordinate(cmd.from.x, cmd.to.x);
    let mid_y = mid_coordinate(cmd.from.y, cmd.to.y);
    let mut v: Vec<Step> = Vec::new();
    v.push(Step::MoveTo(cmd.from.x, cmd.from.y));
    v.push(Step::Wait(t.approach_settle_ms));
    v.push(Step::Press);
    v.push(Step::Wait(t.grip_settle_ms));
    v.push(Step::MoveTo(mid_x, mid_y));
    v.push(Step::Wait(t.waypoint_settle_ms));
    v.push(Step::MoveTo(cmd.to.x, cmd.to.y));
    v.push(Step::Wait(t.arrive_settle_ms));
    v.push(Step::Release);
    v.push(Step::Wait(t.drop_settle_ms));
    proof {
        assert(mid_x == midpoint(cmd.from.x as int, cmd.to.x as int) as i32);
        assert(mid_y == midpoint(cmd.from.y as int, cmd.to.y as int) as i32);
        assert(v@ =~= drag_steps(*cmd, *t));
    }
    v
}

/// Builds the two-click step sequence.
pub fn build_two_click_steps(cmd: &MoveCommand, t: &TimingProfile) -> (v: Vec<Step>)
    ensures
        v@ == two_click_steps(*cmd, *t),
{
    let mut v = build_click_steps(cmd.from.x, cmd.from.y, t);
    v.push(Step::Wait(t.between_clicks_ms));
    let mut second = build_click_steps(cmd.to.x, cmd.to.y, t);
    v.append(&mut second);
    proof {
        assert(v@ =~= two_click_steps(*cmd, *t));
    }
    v
}

/// Builds the step sequence of a move command under the chosen mode.
pub fn build_gesture_steps(cmd: &MoveCommand, mode: GestureMode, t: &TimingProfile) -> (v: Vec<
    Step,
>)
    ensures
        v@ == gesture_steps(*cmd, mode, *t),
{
    match mode {
        GestureMode::Drag => build_drag_steps(cmd, t),
        GestureMode::TwoClick => build_two_click_steps(cmd, t),
    }
}

} // verus!
