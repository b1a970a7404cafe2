use mini_term::dock::{
    monitor_step, plan_snap, MonitorAction, plan_follow, plan_monitor_follow, rect_height, rect_width, same_rect, snap_placement,
    snap_side, snapped_dock, ArithmeticOverflow, DockSide, DockState, WindowGeometry,
    WindowPlacement, WindowRect, MIN_SIDEBAR_WIDTH, MIN_WT_WIDTH,
};

fn rect(l: i32, t: i32, r: i32, b: i32) -> WindowRect {
    WindowRect { left: l, top: t, right: r, bottom: b }
}

fn app() -> WindowGeometry {
    WindowGeometry { actual: rect(100, 100, 520, 700), visible: rect(107, 100, 513, 693) }
}

fn place(x: i32, y: i32, width: i32, height: i32) -> WindowPlacement {
    WindowPlacement { x, y, width, height }
}

#[test]
fn rect_size() {
    assert_eq!(rect_width(&rect(-10, 5, 30, 45)), 40);
    assert_eq!(rect_height(&rect(-10, 5, 30, 45)), 40);
    assert!(same_rect(&rect(1, 2, 3, 4), &rect(1, 2, 3, 4)));
    assert!(!same_rect(&rect(1, 2, 3, 4), &rect(1, 2, 3, 5)));
}

#[test]
fn snap_to_left_side_of_terminal() {
    let wt = rect(600, 80, 1400, 900);
    assert_eq!(snap_side(100, &wt, &app()), Ok(Some(DockSide::Left)));
    let p = snap_placement(DockSide::Left, &wt, &app()).unwrap();
    assert_eq!(p, place(187, 80, 420, 827));
    // the app's visible right edge meets the terminal's left edge
    assert_eq!(p.x + p.width - 7, wt.left);
    assert_eq!(p.y, wt.top);
    assert_eq!(p.y + p.height - 7, wt.bottom);
    let d = snapped_dock(DockSide::Left, 9, &wt, &p, 1_000).unwrap();
    assert_eq!(
        d,
        DockState {
            side: DockSide::Left,
            wt_hwnd: 9,
            last_wt_rect: wt,
            last_app_rect: rect(187, 80, 607, 907),
            ignore_app_moves_until_ms: 1_500,
        }
    );
}

#[test]
fn snap_to_right_side_of_terminal() {
    let wt = rect(-700, 100, 100, 600);
    assert_eq!(snap_side(20, &wt, &app()), Ok(Some(DockSide::Right)));
    let p = snap_placement(DockSide::Right, &wt, &app()).unwrap();
    assert_eq!(p, place(93, 100, 420, 507));
    assert_eq!(p.x + 7, wt.right);
}

#[test]
fn left_side_is_tried_first() {
    // both gaps within the threshold
    let g = WindowGeometry { actual: rect(0, 0, 300, 400), visible: rect(0, 0, 300, 400) };
    let wt = rect(310, 0, 320, 400);
    assert_eq!(snap_side(50, &wt, &g), Ok(Some(DockSide::Left)));
}

#[test]
fn no_snap_when_far_or_not_beside() {
    assert_eq!(snap_side(50, &rect(600, 80, 1400, 900), &app()), Ok(None));
    // terminal ends above the app
    assert_eq!(snap_side(100, &rect(600, 0, 1400, 50), &app()), Ok(None));
    // terminal starts more than the slack below the app's top
    assert_eq!(snap_side(100, &rect(600, 149, 1400, 900), &app()), Ok(None));
    assert_eq!(snap_side(100, &rect(600, 148, 1400, 900), &app()), Ok(Some(DockSide::Left)));
    // negative threshold never snaps
    assert_eq!(snap_side(-1, &rect(513, 80, 1400, 900), &app()), Ok(None));
    assert_eq!(snap_side(0, &rect(513, 80, 1400, 900), &app()), Ok(Some(DockSide::Left)));
}

#[test]
fn narrow_app_is_widened() {
    let g = WindowGeometry { actual: rect(0, 0, 100, 300), visible: rect(0, 0, 100, 300) };
    let wt = rect(100, 0, 900, 300);
    let p = snap_placement(DockSide::Left, &wt, &g).unwrap();
    assert_eq!(p.width, MIN_SIDEBAR_WIDTH);
    assert_eq!(p.x, 100 - MIN_SIDEBAR_WIDTH);
}

#[test]
fn snap_overflow_is_reported() {
    let g = WindowGeometry { actual: rect(i32::MIN, 0, 100, 300), visible: rect(10, 0, 100, 300) };
    assert_eq!(snap_side(10, &rect(0, 0, 10, 10), &g), Err(ArithmeticOverflow));
    let g2 = WindowGeometry { actual: rect(0, 0, 100, 300), visible: rect(0, 0, 100, 300) };
    assert_eq!(snap_side(10, &rect(i32::MIN + 50, 0, 10, 10), &g2), Err(ArithmeticOverflow));
    assert_eq!(
        snap_placement(DockSide::Left, &rect(i32::MIN + 10, 0, 0, 300), &g2),
        Err(ArithmeticOverflow)
    );
    assert_eq!(snapped_dock(DockSide::Left, 1, &rect(0, 0, 1, 1), &place(i32::MAX, 0, 1, 1), 0), Err(ArithmeticOverflow));
}

#[test]
fn follow_app_move() {
    let wt = rect(600, 80, 1400, 900);
    let v = rect(107, 100, 513, 693);
    assert_eq!(plan_follow(DockSide::Left, &wt, &v), Ok(place(513, 100, 800, 593)));
    assert_eq!(plan_follow(DockSide::Right, &wt, &v), Ok(place(-693, 100, 800, 593)));
    let narrow = rect(0, 0, 300, 10);
    assert_eq!(plan_follow(DockSide::Left, &narrow, &v).unwrap().width, MIN_WT_WIDTH);
    let flat = rect(107, 100, 513, 90);
    assert_eq!(plan_follow(DockSide::Left, &wt, &flat).unwrap().height, 1);
    assert_eq!(plan_follow(DockSide::Right, &wt, &rect(i32::MIN, 0, 0, 10)), Err(ArithmeticOverflow));
}

#[test]
fn dock_after_follow() {
    let d = DockState {
        side: DockSide::Left,
        wt_hwnd: 3,
        last_wt_rect: rect(0, 0, 1, 1),
        last_app_rect: rect(0, 0, 1, 1),
        ignore_app_moves_until_ms: 7,
    };
    assert!(!d.follows_app_move_at(6));
    assert!(d.follows_app_move_at(7));
    let n = d.after_follow(&place(513, 100, 800, 593), &rect(100, 100, 520, 700)).unwrap();
    assert_eq!(n.last_wt_rect, rect(513, 100, 1313, 693));
    assert_eq!(n.last_app_rect, rect(100, 100, 520, 700));
    assert_eq!(n.side, DockSide::Left);
    assert_eq!(n.wt_hwnd, 3);
    assert_eq!(n.ignore_app_moves_until_ms, 7);
    assert_eq!(d.after_follow(&place(0, i32::MAX, 1, 1), &rect(0, 0, 1, 1)), Err(ArithmeticOverflow));
}

fn left_dock() -> DockState {
    DockState {
        side: DockSide::Left,
        wt_hwnd: 1,
        last_wt_rect: rect(600, 80, 1400, 900),
        last_app_rect: rect(187, 80, 607, 907),
        ignore_app_moves_until_ms: 0,
    }
}

fn left_app() -> WindowGeometry {
    WindowGeometry { actual: rect(187, 80, 607, 907), visible: rect(194, 80, 600, 900) }
}

#[test]
fn monitor_terminal_moved_whole_left_dock() {
    let d = left_dock();
    let wt = rect(650, 90, 1450, 910);
    assert!(d.terminal_moved(&wt));
    assert!(!d.terminal_moved(&rect(600, 80, 1400, 900)));
    let p = plan_monitor_follow(&d, &wt, &left_app()).unwrap();
    assert_eq!(p, place(223, 90, 434, 827));
    assert_eq!(p.x + p.width - 7, wt.left);
    let n = d.after_monitor_follow(&wt, &p, 2_000).unwrap();
    assert_eq!(n.last_wt_rect, wt);
    assert_eq!(n.last_app_rect, rect(223, 90, 657, 917));
    assert_eq!(n.ignore_app_moves_until_ms, 2_500);
}

#[test]
fn monitor_terminal_left_edge_dragged() {
    let d = left_dock();
    let wt = rect(700, 80, 1400, 900);
    let p = plan_monitor_follow(&d, &wt, &left_app()).unwrap();
    assert_eq!(p, place(187, 80, 520, 827));
    assert_eq!(p.x + p.width - 7, wt.left);
}

fn right_dock() -> DockState {
    DockState {
        side: DockSide::Right,
        wt_hwnd: 1,
        last_wt_rect: rect(-700, 100, 100, 600),
        last_app_rect: rect(93, 100, 513, 607),
        ignore_app_moves_until_ms: 0,
    }
}

fn right_app() -> WindowGeometry {
    WindowGeometry { actual: rect(93, 100, 513, 607), visible: rect(100, 100, 506, 600) }
}

#[test]
fn monitor_terminal_right_edge_dragged() {
    let wt = rect(-700, 100, 150, 600);
    let p = plan_monitor_follow(&right_dock(), &wt, &right_app()).unwrap();
    assert_eq!(p, place(143, 100, 370, 507));
    // the app keeps its outer edge and meets the terminal
    assert_eq!(p.x + p.width - 7, 506);
    assert_eq!(p.x + 7, wt.right);
}

#[test]
fn monitor_terminal_right_edge_dragged_too_far() {
    let wt = rect(-700, 100, 400, 600);
    let p = plan_monitor_follow(&right_dock(), &wt, &right_app()).unwrap();
    assert_eq!(p.width - 14, MIN_SIDEBAR_WIDTH);
    assert_eq!(p.x + p.width - 7, 506);
}

#[test]
fn monitor_terminal_moved_whole_right_dock() {
    let wt = rect(-600, 120, 200, 620);
    let p = plan_monitor_follow(&right_dock(), &wt, &right_app()).unwrap();
    assert_eq!(p, place(193, 120, 434, 507));
    assert_eq!(p.x + 7, wt.right);
}

#[test]
fn monitor_overflow_is_reported() {
    let mut d = left_dock();
    d.last_app_rect = rect(i32::MIN, 0, 10, 10);
    assert_eq!(plan_monitor_follow(&d, &rect(0, 0, 10, 10), &left_app()), Err(ArithmeticOverflow));
    assert_eq!(
        left_dock().after_monitor_follow(&rect(0, 0, 1, 1), &place(i32::MAX, 0, 5, 1), 0),
        Err(ArithmeticOverflow)
    );
}

#[test]
fn placement_size_is_at_least_one_pixel() {
    assert_eq!(place(0, 0, -5, 0).clamped_size(), (1, 1));
    assert_eq!(place(0, 0, 30, 40).clamped_size(), (30, 40));
}

#[test]
fn snap_plan_refused_when_terminal_maximized() {
    let wt = rect(600, 80, 1400, 900);
    assert_eq!(plan_snap(100, &wt, &app(), true), Ok(None));
    assert_eq!(
        plan_snap(100, &wt, &app(), false),
        Ok(Some((DockSide::Left, place(187, 80, 420, 827))))
    );
    assert_eq!(plan_snap(50, &wt, &app(), false), Ok(None));
}

#[test]
fn monitor_tick_decisions() {
    let d = left_dock();
    let moved = rect(650, 90, 1450, 910);
    assert_eq!(monitor_step(&d, true, Some(moved), Some(left_app())), Ok(MonitorAction::Undock));
    assert_eq!(monitor_step(&d, true, None, None), Ok(MonitorAction::Undock));
    assert_eq!(monitor_step(&d, false, None, Some(left_app())), Ok(MonitorAction::Skip));
    assert_eq!(
        monitor_step(&d, false, Some(rect(600, 80, 1400, 900)), Some(left_app())),
        Ok(MonitorAction::Skip)
    );
    assert_eq!(monitor_step(&d, false, Some(moved), None), Ok(MonitorAction::Skip));
    assert_eq!(
        monitor_step(&d, false, Some(moved), Some(left_app())),
        Ok(MonitorAction::Move(place(223, 90, 434, 827)))
    );
}
