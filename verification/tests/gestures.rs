use board_input::driver::{DriverError, GestureRun, SegmentOutcome};
use board_input::geometry::{mid_coordinate, MoveCommand, Position};
use board_input::plan::{
    build_click_steps, build_drag_steps, build_gesture_steps, build_two_click_steps, GestureMode,
    Step, TimingProfile,
};
use board_input::sequencer::{click_position, execute_chess_move};

fn count_kind(steps: &[Step], want_press: bool, want_release: bool, want_click: bool) -> usize {
    let mut n: usize = 0;
    for s in steps {
        let hit = match s {
            Step::Press => want_press,
            Step::Release => want_release,
            Step::Click => want_click,
            _ => false,
        };
        if hit {
            n += 1;
        }
    }
    n
}

fn total_wait(steps: &[Step]) -> u64 {
    let mut total: u64 = 0;
    for s in steps {
        if let Step::Wait(ms) = s {
            total += ms;
        }
    }
    total
}

fn cmd(fx: i32, fy: i32, tx: i32, ty: i32) -> MoveCommand {
    MoveCommand { from: Position { x: fx, y: fy }, to: Position { x: tx, y: ty } }
}

#[test]
fn standard_profile_is_calibrated() {
    let t = TimingProfile::standard();
    assert_eq!(t.approach_settle_ms, 250);
    assert_eq!(t.grip_settle_ms, 350);
    assert_eq!(t.waypoint_settle_ms, 100);
    assert_eq!(t.arrive_settle_ms, 300);
    assert_eq!(t.drop_settle_ms, 200);
    assert_eq!(t.click_settle_ms, 100);
    assert_eq!(t.post_click_ms, 50);
    assert_eq!(t.between_clicks_ms, 300);
}

#[test]
fn click_plan_is_move_settle_click_settle() {
    let t = TimingProfile::standard();
    let plan = build_click_steps(7, 9, &t);
    assert_eq!(
        plan,
        vec![Step::MoveTo(7, 9), Step::Wait(100), Step::Click, Step::Wait(50)],
    );
}

#[test]
fn drag_plan_follows_the_protocol() {
    let t = TimingProfile::standard();
    let plan = build_drag_steps(&cmd(100, 200, 300, 400), &t);
    assert_eq!(
        plan,
        vec![
            Step::MoveTo(100, 200),
            Step::Wait(250),
            Step::Press,
            Step::Wait(350),
            Step::MoveTo(200, 300),
            Step::Wait(100),
            Step::MoveTo(300, 400),
            Step::Wait(300),
            Step::Release,
            Step::Wait(200),
        ],
    );
}

#[test]
fn drag_plan_has_one_press_then_one_release_with_two_moves_between() {
    let t = TimingProfile::standard();
    let plan = build_drag_steps(&cmd(5, 5, 5, 5), &t);
    assert_eq!(count_kind(&plan, true, false, false), 1);
    assert_eq!(count_kind(&plan, false, true, false), 1);
    let press_at = plan.iter().position(|s| matches!(s, Step::Press)).unwrap();
    let release_at = plan.iter().position(|s| matches!(s, Step::Release)).unwrap();
    assert!(press_at < release_at);
    let moves_between = plan[press_at + 1..release_at]
        .iter()
        .filter(|s| matches!(s, Step::MoveTo(_, _)))
        .count();
    assert!(moves_between >= 2);
}

#[test]
fn drag_plan_waits_at_least_1200_ms_in_total() {
    let t = TimingProfile::standard();
    let plan = build_drag_steps(&cmd(0, 0, 80, 80), &t);
    assert_eq!(total_wait(&plan), 1200);
    assert!(total_wait(&plan) >= 1200);
}

#[test]
fn drag_waypoint_uses_truncating_division() {
    let t = TimingProfile::standard();
    let plan = build_drag_steps(&cmd(-3, -5, 0, 0), &t);
    assert_eq!(plan[4], Step::MoveTo(-1, -2));
    let plan = build_drag_steps(&cmd(0, 0, 5, 5), &t);
    assert_eq!(plan[4], Step::MoveTo(2, 2));
}

#[test]
fn mid_coordinate_handles_the_extremes() {
    assert_eq!(mid_coordinate(i32::MAX, i32::MAX), i32::MAX);
    assert_eq!(mid_coordinate(i32::MIN, i32::MIN), i32::MIN);
    assert_eq!(mid_coordinate(i32::MIN, i32::MAX), 0);
    assert_eq!(mid_coordinate(i32::MAX, i32::MIN), 0);
}

#[test]
fn two_click_plan_is_two_clicks_with_a_pause() {
    let t = TimingProfile::standard();
    let plan = build_two_click_steps(&cmd(1, 2, 3, 4), &t);
    assert_eq!(plan.len(), 9);
    assert_eq!(plan[0], Step::MoveTo(1, 2));
    assert_eq!(plan[4], Step::Wait(300));
    assert_eq!(plan[5], Step::MoveTo(3, 4));
    assert_eq!(count_kind(&plan, false, false, true), 2);
    assert_eq!(count_kind(&plan, true, true, false), 0);
}

#[test]
fn gesture_mode_selects_the_plan() {
    let t = TimingProfile::standard();
    let c = cmd(10, 20, 30, 40);
    assert_eq!(build_gesture_steps(&c, GestureMode::Drag, &t), build_drag_steps(&c, &t));
    assert_eq!(
        build_gesture_steps(&c, GestureMode::TwoClick, &t),
        build_two_click_steps(&c, &t),
    );
}

#[test]
fn click_confirmation_names_the_coordinate() {
    let t = TimingProfile::standard();
    let action = click_position(100, 100, &t);
    assert_eq!(action.confirmation, "Clicked at (100, 100)");
    assert!(action.confirmation.matches("100").count() >= 2);
    assert_eq!(count_kind(&action.plan, false, false, true), 1);
}

#[test]
fn move_confirmation_names_both_endpoints() {
    let t = TimingProfile::standard();
    let action = execute_chess_move(&cmd(1, 2, 3, 4), GestureMode::Drag, &t);
    assert_eq!(action.confirmation, "Moved: (1,2) -> (3,4)");
    assert_eq!(action.plan, build_drag_steps(&cmd(1, 2, 3, 4), &t));
}

#[test]
fn wait_only_plan_pauses_then_finishes() {
    // A plan of pauses touches no pointer primitive, so it runs wherever a
    // driver handle can be had; without one, only InitFailed may come back.
    match GestureRun::start(vec![Step::Wait(1), Step::Wait(2)]) {
        Ok(mut run) => {
            assert!(matches!(run.run_segment(), Ok(SegmentOutcome::PauseFor(1))));
            assert!(matches!(run.run_segment(), Ok(SegmentOutcome::PauseFor(2))));
            assert!(matches!(run.run_segment(), Ok(SegmentOutcome::Done)));
        }
        Err(e) => assert_eq!(e, DriverError::InitFailed),
    }
}

#[test]
fn negative_coordinates_render_with_signs() {
    let t = TimingProfile::standard();
    let action = click_position(-7, -2147483648, &t);
    assert_eq!(action.confirmation, "Clicked at (-7, -2147483648)");
}
