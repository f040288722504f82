use filefloat::geometry::{
    docked_bounds, docked_in_range, edge_snap_in_range, expanded_bounds, expanded_in_range,
    hidden_bounds, hidden_in_range, plan_edge_snap, snap_edge, visible_bounds_for_snap,
    visible_in_range, EdgeSnapPlan, SnapState, WindowBounds, WorkArea,
};

fn work() -> WorkArea {
    WorkArea { x: 0, y: 0, width: 1920, height: 1040 }
}

fn ball(x: i32, y: i32) -> WindowBounds {
    WindowBounds { x, y, width: 64, height: 64 }
}

#[test]
fn snap_edge_picks_left_right_top_bottom_in_order() {
    assert_eq!(snap_edge(ball(10, 300), work()), SnapState::Left);
    assert_eq!(snap_edge(ball(40, 300), work()), SnapState::Left);
    assert_eq!(snap_edge(ball(41, 300), work()), SnapState::Free);
    assert_eq!(snap_edge(ball(1850, 300), work()), SnapState::Right);
    assert_eq!(snap_edge(ball(1815, 300), work()), SnapState::Free);
    assert_eq!(snap_edge(ball(1816, 300), work()), SnapState::Right);
    assert_eq!(snap_edge(ball(500, 20), work()), SnapState::Top);
    assert_eq!(snap_edge(ball(500, 1000), work()), SnapState::Bottom);
    assert_eq!(snap_edge(ball(500, 500), work()), SnapState::Free);
    // a corner goes to the left edge first
    assert_eq!(snap_edge(ball(0, 0), work()), SnapState::Left);
}

#[test]
fn plan_edge_snap_docks_and_hides() {
    assert_eq!(
        plan_edge_snap(ball(10, 300), work()),
        EdgeSnapPlan::Dock { edge: SnapState::Left, target: ball(0, 300), hidden: ball(-58, 300) }
    );
    assert_eq!(
        plan_edge_snap(ball(1850, 300), work()),
        EdgeSnapPlan::Dock { edge: SnapState::Right, target: ball(1856, 300), hidden: ball(1914, 300) }
    );
    assert_eq!(
        plan_edge_snap(ball(500, 20), work()),
        EdgeSnapPlan::Dock { edge: SnapState::Top, target: ball(500, 0), hidden: ball(500, -58) }
    );
    assert_eq!(
        plan_edge_snap(ball(500, 1000), work()),
        EdgeSnapPlan::Dock { edge: SnapState::Bottom, target: ball(500, 976), hidden: ball(500, 1034) }
    );
    assert_eq!(plan_edge_snap(ball(500, 500), work()), EdgeSnapPlan::Release);
}

#[test]
fn plan_edge_snap_on_offset_work_area() {
    let w = WorkArea { x: 1920, y: 40, width: 1280, height: 984 };
    assert_eq!(
        plan_edge_snap(ball(1950, 500), w),
        EdgeSnapPlan::Dock { edge: SnapState::Left, target: ball(1920, 500), hidden: ball(1862, 500) }
    );
    assert_eq!(
        plan_edge_snap(ball(2500, 1000), w),
        EdgeSnapPlan::Dock { edge: SnapState::Bottom, target: ball(2500, 960), hidden: ball(2500, 1018) }
    );
}

#[test]
fn hidden_window_keeps_a_strip_on_screen() {
    let h = hidden_bounds(ball(0, 300), SnapState::Left, work());
    assert_eq!(h.x + h.width as i32 - work().x, 6);
    let h = hidden_bounds(ball(1856, 300), SnapState::Right, work());
    assert_eq!(work().x + work().width as i32 - h.x, 6);
    assert_eq!(hidden_bounds(ball(7, 9), SnapState::Free, work()), ball(7, 9));
}

#[test]
fn docked_bounds_per_edge() {
    let b = WindowBounds { x: 300, y: 200, width: 100, height: 50 };
    assert_eq!(docked_bounds(b, SnapState::Left, work()), WindowBounds { x: 0, ..b });
    assert_eq!(docked_bounds(b, SnapState::Right, work()), WindowBounds { x: 1820, ..b });
    assert_eq!(docked_bounds(b, SnapState::Top, work()), WindowBounds { y: 0, ..b });
    assert_eq!(docked_bounds(b, SnapState::Bottom, work()), WindowBounds { y: 990, ..b });
    assert_eq!(docked_bounds(b, SnapState::Free, work()), b);
}

#[test]
fn out_of_range_geometry_is_reported() {
    assert!(edge_snap_in_range(ball(10, 300), work()));
    let far = WorkArea { x: -2_000_000_000, y: 0, width: 3_000_000_000, height: 1000 };
    assert_eq!(snap_edge(ball(0, 500), far), SnapState::Right);
    assert!(!edge_snap_in_range(ball(0, 500), far));
    assert!(!docked_in_range(ball(0, 500), SnapState::Right, far));
    assert!(hidden_in_range(ball(0, 500), SnapState::Left, work()));
    assert!(!hidden_in_range(ball(0, 500), SnapState::Right, far));
}

#[test]
fn visible_bounds_for_snap_slides_along_the_edge() {
    assert_eq!(visible_bounds_for_snap(ball(-58, 300), SnapState::Left, 64, 64, 0, 0, 1920, 1040), Some(ball(0, 300)));
    assert_eq!(visible_bounds_for_snap(ball(-58, -30), SnapState::Left, 64, 64, 0, 0, 1920, 1040), Some(ball(0, 5)));
    assert_eq!(
        visible_bounds_for_snap(ball(1914, 1200), SnapState::Right, 64, 64, 0, 0, 1920, 1040),
        Some(ball(1856, 971))
    );
    assert_eq!(visible_bounds_for_snap(ball(3000, -58), SnapState::Top, 64, 64, 0, 0, 1920, 1040), Some(ball(1851, 0)));
    assert_eq!(visible_bounds_for_snap(ball(700, 1034), SnapState::Bottom, 64, 64, 0, 0, 1920, 1040), Some(ball(700, 976)));
    assert_eq!(visible_bounds_for_snap(ball(700, 1034), SnapState::Free, 64, 64, 0, 0, 1920, 1040), None);
    // a different panel size
    assert_eq!(
        visible_bounds_for_snap(ball(-58, 300), SnapState::Left, 80, 90, 0, 0, 1920, 1040),
        Some(WindowBounds { x: 0, y: 300, width: 80, height: 90 })
    );
}

#[test]
fn visible_range_must_not_be_empty() {
    assert!(visible_in_range(ball(0, 0), SnapState::Left, 64, 64, work()));
    let tiny = WorkArea { x: 0, y: 0, width: 1920, height: 60 };
    assert!(!visible_in_range(ball(0, 0), SnapState::Left, 64, 64, tiny));
    assert!(visible_in_range(ball(0, 0), SnapState::Top, 64, 64, tiny));
    assert!(visible_in_range(ball(0, 0), SnapState::Free, 64, 64, tiny));
}

#[test]
fn expanded_panel_stays_within_margins() {
    assert_eq!(
        expanded_bounds(ball(1856, 300), work(), 600, 400, 64),
        WindowBounds { x: 1315, y: 300, width: 600, height: 400 }
    );
    assert_eq!(
        expanded_bounds(ball(0, 900), work(), 600, 400, 64),
        WindowBounds { x: 5, y: 635, width: 600, height: 400 }
    );
    // too wide: the near margin wins
    assert_eq!(
        expanded_bounds(ball(1856, 300), work(), 2000, 400, 64),
        WindowBounds { x: 5, y: 300, width: 2000, height: 400 }
    );
    // never lower than the window was
    assert_eq!(
        expanded_bounds(WindowBounds { x: 100, y: 100, width: 64, height: 500 }, work(), 600, 400, 500),
        WindowBounds { x: 100, y: 100, width: 600, height: 500 }
    );
    assert!(expanded_in_range(1856, 0, 1920, 600));
    assert!(!expanded_in_range(i32::MAX, i32::MAX - 2, 4_000_000_000, 10));
}

#[test]
fn is_snapped_only_for_edges() {
    assert!(!SnapState::Free.is_snapped());
    assert!(SnapState::Left.is_snapped());
    assert!(SnapState::Bottom.is_snapped());
}
