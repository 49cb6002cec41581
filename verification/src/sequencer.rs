use vstd::prelude::*;

use crate::geometry::MoveCommand;
use crate::plan::{
    build_click_steps, build_gesture_steps, click_steps, gesture_steps, GestureMode, Step,
    TimingProfile,
};
use crate::text::{
    click_confirmation, move_confirmation, render_click_confirmation, render_move_confirmation,
};

verus! {

/// A gesture laid out and ready to run: its full step plan and the
/// confirmation returned to the caller once every step has succeeded.
pub struct PlannedAction {
    pub plan: Vec<Step>,
    pub confirmation: String,
}

/// Lays out a single left click at `(x, y)` under the given timing
/// profile: move, settle, click, settle. The confirmation names the
/// coordinate acted on.
pub fn click_position(x: i32, y: i32, t: &TimingProfile) -> (r: PlannedAction)
    ensures
        r.plan@ == click_steps(x, y, *t),
        r.confirmation@ == click_confirmation(x as int, y as int),
{
    PlannedAction {
        plan: build_click_steps(x, y, t),
        confirmation: render_click_confirmation(x, y),
    }
}

/// Lays out the move of a command's source point to its destination,
/// under the chosen gesture mode and timing profile. The confirmation
/// names both endpoints.
pub fn execute_chess_move(cmd: &MoveCommand, mode: GestureMode, t: &TimingProfile) -> (r:
    PlannedAction)
    ensures
        r.plan@ == gesture_steps(*cmd, mode, *t),
        r.confirmation@ == move_confirmation(*cmd),
{
    PlannedAction {
        plan: build_gesture_steps(cmd, mode, t),
        confirmation: render_move_confirmation(cmd),
    }
}

} // verus!
