use filefloat::geometry::{hidden_bounds, visible_bounds_for_snap, SnapState, WindowBounds, WorkArea};
use filefloat::runtime::{
    drag_move_in_range, plan_drag_move, plan_snap_poll, snap_poll_in_range, CollapsePlan,
    CursorCoord, CursorPosition, DragDelta, DragEnd, RuntimeState, SnapPollAction, SnapWatch,
};

fn work() -> WorkArea {
    WorkArea { x: 0, y: 0, width: 1920, height: 1040 }
}

fn ball(x: i32, y: i32) -> WindowBounds {
    WindowBounds { x, y, width: 64, height: 64 }
}

fn at(v: f64) -> CursorCoord {
    CursorCoord { floor: v.floor() as i64, ceil: v.ceil() as i64 }
}

fn cursor(x: f64, y: f64) -> CursorPosition {
    CursorPosition { x: at(x), y: at(y) }
}

fn docked_left() -> RuntimeState {
    let mut st = RuntimeState::new();
    st.record_hidden_snap(SnapState::Left, ball(0, 300));
    st
}

#[test]
fn new_state_is_free() {
    let st = RuntimeState::new();
    assert_eq!(st.current_snap_state, SnapState::Free);
    assert!(!st.is_snapped_hidden);
    assert!(st.watch().is_none());
    assert!(!st.everything_runtime_started);
}

#[test]
fn release_clears_the_dock() {
    let mut st = docked_left();
    st.collapse_restore_snap_state = SnapState::Left;
    st.release_snap();
    assert_eq!(st.current_snap_state, SnapState::Free);
    assert!(!st.is_snapped_hidden);
    assert_eq!(st.collapse_restore_snap_state, SnapState::Free);
}

#[test]
fn docking_remembers_the_coordinate_along_the_edge() {
    let st = docked_left();
    assert_eq!(st.snapped_y, 300);
    assert!(st.is_snapped_hidden);
    assert!(!st.snap_reveal_armed);
    let mut st = RuntimeState::new();
    st.record_hidden_snap(SnapState::Top, ball(700, 0));
    assert_eq!(st.snapped_x, 700);
    assert_eq!(st.snapped_y, 0);
}

#[test]
fn watcher_arms_reveals_and_hides() {
    let mut st = docked_left();
    let hidden = ball(-58, 300);
    // the cursor is still at the edge: nothing happens
    let v = st.watch().unwrap();
    assert_eq!(plan_snap_poll(v, cursor(2.0, 310.0), work(), hidden), SnapPollAction::Wait);
    // the cursor leaves: arm
    assert_eq!(plan_snap_poll(v, cursor(500.0, 310.0), work(), hidden), SnapPollAction::ArmReveal);
    st.arm_reveal(SnapState::Left);
    assert!(st.snap_reveal_armed);
    // the cursor comes back: reveal where it was docked
    let v = st.watch().unwrap();
    assert_eq!(plan_snap_poll(v, cursor(8.0, 310.0), work(), hidden), SnapPollAction::Reveal(ball(0, 300)));
    assert_eq!(plan_snap_poll(v, cursor(8.5, 310.0), work(), hidden), SnapPollAction::Wait);
    st.finish_reveal(SnapState::Left);
    assert!(!st.is_snapped_hidden);
    // the cursor goes away: hide again at the same place
    let v = st.watch().unwrap();
    assert_eq!(plan_snap_poll(v, cursor(120.0, 310.0), work(), ball(0, 300)), SnapPollAction::Wait);
    assert_eq!(
        plan_snap_poll(v, cursor(120.5, 310.0), work(), ball(0, 300)),
        SnapPollAction::Conceal(ball(-58, 300))
    );
    st.finish_conceal(SnapState::Left);
    assert!(st.is_snapped_hidden);
    assert!(!st.snap_reveal_armed);
}

#[test]
fn watcher_uses_the_remembered_coordinate() {
    let mut st = RuntimeState::new();
    st.record_hidden_snap(SnapState::Bottom, ball(700, 976));
    st.arm_reveal(SnapState::Bottom);
    let v = st.watch().unwrap();
    assert_eq!(v.snapped_x, 700);
    // the window drifted to x = 650 while hidden: it comes back at 700
    assert_eq!(
        plan_snap_poll(v, cursor(720.0, 1035.0), work(), ball(650, 1034)),
        SnapPollAction::Reveal(ball(700, 976))
    );
    assert!(snap_poll_in_range(v, cursor(720.0, 1035.0), work(), ball(650, 1034)));
}

#[test]
fn watcher_ignores_other_edges_and_drags() {
    let mut st = docked_left();
    st.arm_reveal(SnapState::Right);
    assert!(!st.snap_reveal_armed);
    st.finish_reveal(SnapState::Top);
    assert!(st.is_snapped_hidden);
    st.begin_drag(SnapState::Left, 0, 300);
    assert!(st.watch().is_none());
    let free = RuntimeState::new();
    assert!(free.watch().is_none());
    let v = SnapWatch { snap_state: SnapState::Free, is_hidden: true, snapped_x: 0, snapped_y: 0, reveal_armed: true };
    assert_eq!(plan_snap_poll(v, cursor(0.0, 0.0), work(), ball(0, 0)), SnapPollAction::Wait);
}

#[test]
fn fresh_dock_is_not_revealed_at_once() {
    let st = docked_left();
    let v = st.watch().unwrap();
    for x in [0.0, 3.0, 8.0, 500.0] {
        let action = plan_snap_poll(v, cursor(x, 300.0), work(), ball(-58, 300));
        assert!(!matches!(action, SnapPollAction::Reveal(_)));
    }
}

#[test]
fn expand_then_collapse_goes_back_to_the_dock() {
    let mut st = docked_left();
    let panel = st.begin_expand(ball(-58, 300), work(), 600, 400, 64);
    assert_eq!(panel, WindowBounds { x: 5, y: 300, width: 600, height: 400 });
    assert_eq!(st.collapse_restore_bounds, Some(ball(0, 300)));
    assert_eq!(st.collapse_restore_snap_state, SnapState::Left);
    assert_eq!(st.current_snap_state, SnapState::Free);
    assert_eq!(st.expanded_anchor_position, Some((5, 300)));
    let plan = st.begin_collapse(panel, 64);
    assert_eq!(plan, CollapsePlan { target: ball(0, 300), snap: SnapState::Left });
    assert_eq!(st.collapse_restore_bounds, None);
    assert_eq!(st.expanded_anchor_position, None);
    // back into hiding at the edge
    assert_eq!(hidden_bounds(plan.target, plan.snap, work()), ball(-58, 300));
    st.record_hidden_snap(plan.snap, plan.target);
    assert_eq!(st.current_snap_state, SnapState::Left);
}

#[test]
fn expand_then_collapse_when_free_returns_to_the_ball() {
    let mut st = RuntimeState::new();
    let panel = st.begin_expand(ball(1850, 500), work(), 600, 400, 64);
    assert_eq!(panel, WindowBounds { x: 1315, y: 500, width: 600, height: 400 });
    let plan = st.begin_collapse(panel, 64);
    assert_eq!(plan, CollapsePlan { target: ball(1850, 500), snap: SnapState::Free });
}

#[test]
fn collapse_after_moving_the_panel_stays_put() {
    let mut st = docked_left();
    let _ = st.begin_expand(ball(-58, 300), work(), 600, 400, 64);
    let plan = st.begin_collapse(WindowBounds { x: 700, y: 500, width: 600, height: 400 }, 64);
    assert_eq!(plan, CollapsePlan { target: ball(700, 500), snap: SnapState::Free });
    assert_eq!(st.current_snap_state, SnapState::Free);
    assert!(st.snap_reveal_armed);
}

#[test]
fn collapse_without_expanding_uses_the_current_position() {
    let mut st = RuntimeState::new();
    let plan = st.begin_collapse(WindowBounds { x: 10, y: 20, width: 600, height: 400 }, 72);
    assert_eq!(plan, CollapsePlan { target: WindowBounds { x: 10, y: 20, width: 72, height: 72 }, snap: SnapState::Free });
}

#[test]
fn expand_in_range_matches_the_panel() {
    let st = docked_left();
    assert!(st.expand_in_range(ball(-58, 300), work(), 600, 400, 64));
    let tiny = WorkArea { x: 0, y: 0, width: 1920, height: 60 };
    assert!(!st.expand_in_range(ball(-58, 300), tiny, 600, 400, 64));
    assert!(RuntimeState::new().expand_in_range(ball(-58, 300), tiny, 600, 400, 64));
}

#[test]
fn click_without_moving_keeps_the_dock() {
    let mut st = docked_left();
    let (snap, start_watcher) = st.claim_snap_poller();
    assert_eq!(snap, SnapState::Left);
    assert!(start_watcher);
    assert_eq!(st.claim_snap_poller(), (SnapState::Left, false));
    let shown = visible_bounds_for_snap(ball(-58, 300), snap, 64, 64, 0, 0, 1920, 1040).unwrap();
    assert!(st.begin_drag(snap, shown.x, shown.y));
    assert!(!st.is_snapped_hidden);
    assert_eq!(st.drag_anchor, Some((0, 300)));
    let end = st.finish_drag();
    assert_eq!(end, DragEnd { moved: false, snap: Some(SnapState::Left) });
    assert_eq!(st.current_snap_state, SnapState::Left);
    assert!(st.is_snapped_hidden);
    assert!(!st.snap_reveal_armed);
    assert_eq!(st.drag_anchor, None);
    // the drag watcher is started once
    assert!(!st.begin_drag(SnapState::Left, 0, 300));
}

#[test]
fn drag_that_moved_reports_it() {
    let mut st = RuntimeState::new();
    st.begin_drag(SnapState::Free, 100, 200);
    st.note_drag_moved();
    let end = st.finish_drag();
    assert_eq!(end, DragEnd { moved: true, snap: Some(SnapState::Free) });
    assert!(!st.drag_has_moved);
    assert_eq!(st.drag_snap_state, None);
    assert!(st.snap_reveal_armed);
}

#[test]
fn click_on_a_free_window_keeps_it_free() {
    let mut st = RuntimeState::new();
    st.begin_drag(SnapState::Free, 100, 200);
    let end = st.finish_drag();
    assert_eq!(end, DragEnd { moved: false, snap: Some(SnapState::Free) });
    assert_eq!(st.current_snap_state, SnapState::Free);
    assert!(!st.is_snapped_hidden);
    assert!(st.snap_reveal_armed);
}

fn delta(dx: f64, dy: f64) -> DragDelta {
    DragDelta { dx: at(dx), dy: at(dy), dx_rounded: dx.round() as i32, dy_rounded: dy.round() as i32 }
}

#[test]
fn drag_moves_past_the_dead_zone() {
    assert_eq!(plan_drag_move((100, 200), delta(5.0, -8.0)), None);
    assert_eq!(plan_drag_move((100, 200), delta(8.0, 8.0)), None);
    assert_eq!(plan_drag_move((100, 200), delta(8.5, 0.0)), Some((109, 200)));
    assert_eq!(plan_drag_move((100, 200), delta(-3.0, -20.4)), Some((97, 180)));
    assert!(drag_move_in_range((100, 200), delta(8.5, 0.0)));
    assert!(!drag_move_in_range((i32::MAX, 200), delta(9.0, 0.0)));
    assert!(drag_move_in_range((i32::MAX, 200), delta(1.0, 0.0)));
}

#[test]
fn everything_start_is_remembered() {
    let mut st = RuntimeState::new();
    st.mark_everything_started();
    assert!(st.everything_runtime_started);
}
