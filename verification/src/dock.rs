//! Geometry of docking the app window beside the companion terminal window,
//! and of keeping the two side by side when either of them moves.
//!
//! Each plan is computed over 32-bit screen coordinates. Where a step of the
//! computation would leave the `i32` range, the plan is
//! `Err(ArithmeticOverflow)` instead.

use vstd::prelude::*;

verus! {

/// A window rectangle in screen coordinates.
#[derive(Clone, Copy, Debug, PartialEq, Eq, Structural)]
pub struct WindowRect {
    pub left: i32,
    pub top: i32,
    pub right: i32,
    pub bottom: i32,
}

/// The full rectangle of a window and the part of it that is drawn.
#[derive(Clone, Copy, Debug, PartialEq, Eq, Structural)]
pub struct WindowGeometry {
    pub actual: WindowRect,
    pub visible: WindowRect,
}

/// The side of the terminal window the app window is docked on.
#[derive(Clone, Copy, Debug, PartialEq, Eq, Structural)]
pub enum DockSide {
    Left,
    Right,
}

/// Position and size to give a window.
#[derive(Clone, Copy, Debug, PartialEq, Eq, Structural)]
pub struct WindowPlacement {
    pub x: i32,
    pub y: i32,
    pub width: i32,
    pub height: i32,
}

/// A step of a placement computation left the 32-bit coordinate range.
#[derive(Clone, Copy, Debug, PartialEq, Eq, Structural)]
pub struct ArithmeticOverflow;

/// An established dock: which side, which terminal window, where both
/// windows were last put, and until when moves of the app are ignored.
#[derive(Clone, Copy, Debug, PartialEq, Eq, Structural)]
pub struct DockState {
    pub side: DockSide,
    pub wt_hwnd: usize,
    pub last_wt_rect: WindowRect,
    pub last_app_rect: WindowRect,
    pub ignore_app_moves_until_ms: u128,
}

/// Narrowest visible width the docked app window is given.
pub const MIN_SIDEBAR_WIDTH: i32 = 220;

/// Narrowest width the docked terminal window is given.
pub const MIN_WT_WIDTH: i32 = 480;

/// How far below the terminal's top edge the app's top edge may lie and
/// still count as beside it.
pub const VERTICAL_SLACK: i32 = 48;

/// How long, after the app moved the windows itself, moves of the app window
/// are not followed.
pub const IGNORE_APP_MOVES_MS: u128 = 500;

/// The largest millisecond count a `Duration` can hold.
pub const MAX_CLOCK_MS: u128 = 18446744073709551615999;

pub open spec fn fits(x: int) -> bool {
    -0x8000_0000 <= x <= 0x7fff_ffff
}

pub open spec fn max_int(a: int, b: int) -> int {
    if a >= b {
        a
    } else {
        b
    }
}

pub open spec fn abs_int(a: int) -> int {
    if a < 0 {
        -a
    } else {
        a
    }
}

pub open spec fn width_of(r: WindowRect) -> int {
    r.right - r.left
}

pub open spec fn height_of(r: WindowRect) -> int {
    r.bottom - r.top
}

/// The invisible border of a window on each side.
pub open spec fn frame_left(g: WindowGeometry) -> int {
    g.visible.left - g.actual.left
}

pub open spec fn frame_top(g: WindowGeometry) -> int {
    g.visible.top - g.actual.top
}

pub open spec fn frame_right(g: WindowGeometry) -> int {
    g.actual.right - g.visible.right
}

pub open spec fn frame_bottom(g: WindowGeometry) -> int {
    g.actual.bottom - g.visible.bottom
}

pub open spec fn frames_fit(g: WindowGeometry) -> bool {
    &&& fits(frame_left(g))
    &&& fits(frame_top(g))
    &&& fits(frame_right(g))
    &&& fits(frame_bottom(g))
}

/// The rectangle a placement covers.
pub open spec fn placed_rect(p: WindowPlacement) -> WindowRect {
    WindowRect {
        left: p.x,
        top: p.y,
        right: (p.x + p.width) as i32,
        bottom: (p.y + p.height) as i32,
    }
}

/// `x` in `i32`, given that it fits.
fn narrow(x: i64) -> (r: i32)
    requires
        fits(x as int),
    ensures
        r as int == x as int,
{
    x as i32
}

fn fits64(x: i64) -> (r: bool)
    ensures
        r == fits(x as int),
{
    -0x8000_0000i64 <= x && x <= 0x7fff_ffffi64
}

/// Width of a rectangle.
pub fn rect_width(rect: &WindowRect) -> (w: i32)
    requires
        fits(width_of(*rect)),
    ensures
        w == width_of(*rect),
{
    rect.right - rect.left
}

/// Height of a rectangle.
pub fn rect_height(rect: &WindowRect) -> (h: i32)
    requires
        fits(height_of(*rect)),
    ensures
        h == height_of(*rect),
{
    rect.bottom - rect.top
}

/// Whether two rectangles are the same.
pub fn same_rect(a: &WindowRect, b: &WindowRect) -> (r: bool)
    ensures
        r == (*a == *b),
{
    a.left == b.left && a.top == b.top && a.right == b.right && a.bottom == b.bottom
}

impl WindowPlacement {
    /// The size passed to the window system: at least one pixel each way.
    pub fn clamped_size(&self) -> (r: (i32, i32))
        ensures
            r.0 == max_int(self.width as int, 1),
            r.1 == max_int(self.height as int, 1),
    {
        let w = if self.width >= 1 {
            self.width
        } else {
            1
        };
        let h = if self.height >= 1 {
            self.height
        } else {
            1
        };
        (w, h)
    }
}

// ---------------------------------------------------------------------------
// Snapping the app window to the terminal window.
// ---------------------------------------------------------------------------
/// Which side, if any, the app window snaps to. The app snaps when its top
/// edge lies between the terminal's top edge (less the slack) and its bottom
/// edge, and its right edge (left side) or left edge (right side) lies within
/// `threshold` of the terminal's opposite edge; the left side is tried first.
pub open spec fn snap_side_spec(threshold: int, wt: WindowRect, g: WindowGeometry) -> Result<
    Option<DockSide>,
    ArithmeticOverflow,
> {
    let v = g.visible;
    let left_gap = v.right - wt.left;
    let right_gap = v.left - wt.right;
    if !frames_fit(g) || !fits(width_of(v)) || !fits(left_gap) || !fits(abs_int(left_gap))
        || !fits(right_gap) || !fits(abs_int(right_gap)) {
        Err(ArithmeticOverflow)
    } else if v.top > wt.bottom {
        Ok(None)
    } else if !fits(v.top + VERTICAL_SLACK) {
        Err(ArithmeticOverflow)
    } else if v.top + VERTICAL_SLACK < wt.top {
        Ok(None)
    } else if abs_int(left_gap) <= threshold {
        Ok(Some(DockSide::Left))
    } else if abs_int(right_gap) <= threshold {
        Ok(Some(DockSide::Right))
    } else {
        Ok(None)
    }
}

/// Visible width the snapped app window gets.
pub open spec fn snap_visible_width(g: WindowGeometry) -> int {
    max_int(width_of(g.visible), MIN_SIDEBAR_WIDTH as int)
}

/// Left edge of the snapped app window's visible part.
pub open spec fn snap_visible_left(side: DockSide, wt: WindowRect, g: WindowGeometry) -> int {
    match side {
        DockSide::Left => wt.left - snap_visible_width(g),
        DockSide::Right => wt.right as int,
    }
}

pub open spec fn snap_x(side: DockSide, wt: WindowRect, g: WindowGeometry) -> int {
    snap_visible_left(side, wt, g) - frame_left(g)
}

pub open spec fn snap_y(wt: WindowRect, g: WindowGeometry) -> int {
    wt.top - frame_top(g)
}

pub open spec fn snap_width(g: WindowGeometry) -> int {
    snap_visible_width(g) + frame_left(g) + frame_right(g)
}

pub open spec fn snap_height(wt: WindowRect, g: WindowGeometry) -> int {
    height_of(wt) + frame_top(g) + frame_bottom(g)
}

pub open spec fn snap_overflows(side: DockSide, wt: WindowRect, g: WindowGeometry) -> bool {
    ||| !frames_fit(g)
    ||| !fits(width_of(g.visible))
    ||| !fits(snap_visible_left(side, wt, g))
    ||| !fits(snap_x(side, wt, g))
    ||| !fits(snap_y(wt, g))
    ||| !fits(snap_visible_width(g) + frame_left(g))
    ||| !fits(snap_width(g))
    ||| !fits(height_of(wt))
    ||| !fits(height_of(wt) + frame_top(g))
    ||| !fits(snap_height(wt, g))
}

/// Decides the side the app window snaps to, from the terminal's visible
/// rectangle and the app window's geometry.
pub fn snap_side(threshold: i32, wt_rect: &WindowRect, app: &WindowGeometry) -> (r: Result<
    Option<DockSide>,
    ArithmeticOverflow,
>)
    ensures
        r == snap_side_spec(threshold as int, *wt_rect, *app),
{
    let a = app.actual;
    let v = app.visible;
    let fl = v.left as i64 - a.left as i64;
    let ft = v.top as i64 - a.top as i64;
    let fr = a.right as i64 - v.right as i64;
    let fb = a.bottom as i64 - v.bottom as i64;
    let vw = v.right as i64 - v.left as i64;
    let lg = v.right as i64 - wt_rect.left as i64;
    let rg = v.left as i64 - wt_rect.right as i64;
    let la = if lg < 0 {
        -lg
    } else {
        lg
    };
    let ra = if rg < 0 {
        -rg
    } else {
        rg
    };
    if !fits64(fl) || !fits64(ft) || !fits64(fr) || !fits64(fb) || !fits64(vw) || !fits64(lg)
        || !fits64(la) || !fits64(rg) || !fits64(ra) {
        return Err(ArithmeticOverflow);
    }
    if v.top > wt_rect.bottom {
        return Ok(None);
    }
    let lowered = v.top as i64 + 48;
    if !fits64(lowered) {
        return Err(ArithmeticOverflow);
    }
    if lowered < wt_rect.top as i64 {
        return Ok(None);
    }
    if la <= threshold as i64 {
        Ok(Some(DockSide::Left))
    } else if ra <= threshold as i64 {
        Ok(Some(DockSide::Right))
    } else {
        Ok(None)
    }
}

/// Where the snapped app window goes: flush against the terminal on `side`,
/// top and bottom aligned with it, its visible width kept but at least
/// `MIN_SIDEBAR_WIDTH`.
pub fn snap_placement(side: DockSide, wt_rect: &WindowRect, app: &WindowGeometry) -> (r: Result<
    WindowPlacement,
    ArithmeticOverflow,
>)
    ensures
        match r {
            Err(_) => snap_overflows(side, *wt_rect, *app),
            Ok(p) => {
                &&& !snap_overflows(side, *wt_rect, *app)
                &&& p.x == snap_x(side, *wt_rect, *app)
                &&& p.y == snap_y(*wt_rect, *app)
                &&& p.width == snap_width(*app)
                &&& p.height == snap_height(*wt_rect, *app)
            },
        },
{
    let a = app.actual;
    let v = app.visible;
    let fl = v.left as i64 - a.left as i64;
    let ft = v.top as i64 - a.top as i64;
    let fr = a.right as i64 - v.right as i64;
    let fb = a.bottom as i64 - v.bottom as i64;
    let vw0 = v.right as i64 - v.left as i64;
    if !fits64(fl) || !fits64(ft) || !fits64(fr) || !fits64(fb) || !fits64(vw0) {
        return Err(ArithmeticOverflow);
    }
    let vw = if vw0 >= 220 {
        vw0
    } else {
        220
    };
    let vl = match side {
        DockSide::Left => wt_rect.left as i64 - vw,
        DockSide::Right => wt_rect.right as i64,
    };
    let x = vl - fl;
    let y = wt_rect.top as i64 - ft;
    let w1 = vw + fl;
    let w = w1 + fr;
    let h0 = wt_rect.bottom as i64 - wt_rect.top as i64;
    let h1 = h0 + ft;
    let h = h1 + fb;
    if !fits64(vl) || !fits64(x) || !fits64(y) || !fits64(w1) || !fits64(w) || !fits64(h0)
        || !fits64(h1) || !fits64(h) {
        return Err(ArithmeticOverflow);
    }
    Ok(WindowPlacement { x: narrow(x), y: narrow(y), width: narrow(w), height: narrow(h) })
}

/// Whether and where the app window snaps: to the side `snap_side` picks,
/// unless the terminal window is maximized (`zoomed`), at the placement
/// `snap_placement` gives.
pub fn plan_snap(threshold: i32, wt_rect: &WindowRect, app: &WindowGeometry, zoomed: bool) -> (r:
    Result<Option<(DockSide, WindowPlacement)>, ArithmeticOverflow>)
    ensures
        match snap_side_spec(threshold as int, *wt_rect, *app) {
            Err(_) => r is Err,
            Ok(None) => r == Ok::<Option<(DockSide, WindowPlacement)>, ArithmeticOverflow>(None),
            Ok(Some(side)) => if zoomed {
                r == Ok::<Option<(DockSide, WindowPlacement)>, ArithmeticOverflow>(None)
            } else {
                match r {
                    Err(_) => snap_overflows(side, *wt_rect, *app),
                    Ok(None) => false,
                    Ok(Some((s, p))) => {
                        &&& s == side
                        &&& !snap_overflows(side, *wt_rect, *app)
                        &&& p.x == snap_x(side, *wt_rect, *app)
                        &&& p.y == snap_y(*wt_rect, *app)
                        &&& p.width == snap_width(*app)
                        &&& p.height == snap_height(*wt_rect, *app)
                    },
                }
            },
        },
{
    match snap_side(threshold, wt_rect, app) {
        Err(e) => Err(e),
        Ok(None) => Ok(None),
        Ok(Some(side)) => {
            if zoomed {
                return Ok(None);
            }
            match snap_placement(side, wt_rect, app) {
                Err(e) => Err(e),
                Ok(p) => Ok(Some((side, p))),
            }
        },
    }
}

/// The dock recorded after the app window was snapped.
pub open spec fn snapped_dock_spec(
    side: DockSide,
    wt_hwnd: usize,
    wt_rect: WindowRect,
    p: WindowPlacement,
    now: u128,
) -> DockState {
    DockState {
        side,
        wt_hwnd,
        last_wt_rect: wt_rect,
        last_app_rect: placed_rect(p),
        ignore_app_moves_until_ms: (now + IGNORE_APP_MOVES_MS) as u128,
    }
}

pub open spec fn placement_end_fits(p: WindowPlacement) -> bool {
    fits(p.x + p.width) && fits(p.y + p.height)
}

/// Records the dock established by a snap at time `now` (milliseconds).
pub fn snapped_dock(
    side: DockSide,
    wt_hwnd: usize,
    wt_rect: &WindowRect,
    placement: &WindowPlacement,
    now: u128,
) -> (r: Result<DockState, ArithmeticOverflow>)
    requires
        now <= MAX_CLOCK_MS,
    ensures
        match r {
            Err(_) => !placement_end_fits(*placement),
            Ok(d) => placement_end_fits(*placement) && d == snapped_dock_spec(
                side,
                wt_hwnd,
                *wt_rect,
                *placement,
                now,
            ),
        },
{
    let right = placement.x as i64 + placement.width as i64;
    let bottom = placement.y as i64 + placement.height as i64;
    if !fits64(right) || !fits64(bottom) {
        return Err(ArithmeticOverflow);
    }
    Ok(
        DockState {
            side,
            wt_hwnd,
            last_wt_rect: *wt_rect,
            last_app_rect: WindowRect {
                left: placement.x,
                top: placement.y,
                right: narrow(right),
                bottom: narrow(bottom),
            },
            ignore_app_moves_until_ms: now + 500,
        },
    )
}

// ---------------------------------------------------------------------------
// Moving the terminal window after the app window was moved.
// ---------------------------------------------------------------------------
pub open spec fn follow_width(wt: WindowRect) -> int {
    max_int(width_of(wt), MIN_WT_WIDTH as int)
}

pub open spec fn follow_height(app_visible: WindowRect) -> int {
    max_int(height_of(app_visible), 1)
}

pub open spec fn follow_x(side: DockSide, wt: WindowRect, app_visible: WindowRect) -> int {
    match side {
        DockSide::Left => app_visible.right as int,
        DockSide::Right => app_visible.left - follow_width(wt),
    }
}

pub open spec fn follow_overflows(side: DockSide, wt: WindowRect, app_visible: WindowRect) -> bool {
    ||| !fits(height_of(app_visible))
    ||| !fits(width_of(wt))
    ||| !fits(follow_x(side, wt, app_visible))
}

/// Where the terminal window goes after the app window moved: flush against
/// the app's visible part on the far side from `side`, top aligned, as tall
/// as the app's visible part, its width kept but at least `MIN_WT_WIDTH`.
pub fn plan_follow(side: DockSide, wt_rect: &WindowRect, app_visible: &WindowRect) -> (r: Result<
    WindowPlacement,
    ArithmeticOverflow,
>)
    ensures
        match r {
            Err(_) => follow_overflows(side, *wt_rect, *app_visible),
            Ok(p) => {
                &&& !follow_overflows(side, *wt_rect, *app_visible)
                &&& p.x == follow_x(side, *wt_rect, *app_visible)
                &&& p.y == app_visible.top
                &&& p.width == follow_width(*wt_rect)
                &&& p.height == follow_height(*app_visible)
            },
        },
{
    let vh = app_visible.bottom as i64 - app_visible.top as i64;
    if !fits64(vh) {
        return Err(ArithmeticOverflow);
    }
    let ww0 = wt_rect.right as i64 - wt_rect.left as i64;
    if !fits64(ww0) {
        return Err(ArithmeticOverflow);
    }
    let ww = if ww0 >= 480 {
        ww0
    } else {
        480
    };
    let wh = if vh >= 1 {
        vh
    } else {
        1
    };
    let x = match side {
        DockSide::Left => app_visible.right as i64,
        DockSide::Right => app_visible.left as i64 - ww,
    };
    if !fits64(x) {
        return Err(ArithmeticOverflow);
    }
    Ok(WindowPlacement { x: narrow(x), y: app_visible.top, width: narrow(ww), height: narrow(wh) })
}

impl DockState {
    /// Whether a move of the app window at time `now` is followed.
    pub fn follows_app_move_at(&self, now: u128) -> (r: bool)
        ensures
            r == (now >= self.ignore_app_moves_until_ms),
    {
        now >= self.ignore_app_moves_until_ms
    }

    /// The dock after the terminal window was put at `placement` to follow the
    /// app window, whose full rectangle is now `app_actual`.
    pub fn after_follow(&self, placement: &WindowPlacement, app_actual: &WindowRect) -> (r: Result<
        DockState,
        ArithmeticOverflow,
    >)
        ensures
            match r {
                Err(_) => !placement_end_fits(*placement),
                Ok(d) => placement_end_fits(*placement) && d == DockState {
                    last_wt_rect: placed_rect(*placement),
                    last_app_rect: *app_actual,
                    ..*self
                },
            },
    {
        let right = placement.x as i64 + placement.width as i64;
        let bottom = placement.y as i64 + placement.height as i64;
        if !fits64(right) || !fits64(bottom) {
            return Err(ArithmeticOverflow);
        }
        Ok(
            DockState {
                last_wt_rect: WindowRect {
                    left: placement.x,
                    top: placement.y,
                    right: narrow(right),
                    bottom: narrow(bottom),
                },
                last_app_rect: *app_actual,
                ..*self
            },
        )
    }

    /// Whether the terminal window is no longer where it was last put.
    pub fn terminal_moved(&self, wt_rect: &WindowRect) -> (r: bool)
        ensures
            r == (*wt_rect != self.last_wt_rect),
    {
        !same_rect(wt_rect, &self.last_wt_rect)
    }
}

// ---------------------------------------------------------------------------
// Moving the app window after the terminal window was moved or resized.
// ---------------------------------------------------------------------------
/// The terminal's left edge moved while its right edge stayed.
pub open spec fn only_left_moved(d: DockState, wt: WindowRect) -> bool {
    wt.left != d.last_wt_rect.left && wt.right == d.last_wt_rect.right
}

/// The terminal's right edge moved while its left edge stayed.
pub open spec fn only_right_moved(d: DockState, wt: WindowRect) -> bool {
    wt.right != d.last_wt_rect.right && wt.left == d.last_wt_rect.left
}

/// Visible width the app window keeps when the terminal moves as a whole.
pub open spec fn kept_visible_width(d: DockState) -> int {
    max_int(width_of(d.last_app_rect), MIN_SIDEBAR_WIDTH as int)
}

/// The app's visible right edge, which stays put when the terminal's right
/// edge is dragged on a right-side dock.
pub open spec fn fixed_right(d: DockState, g: WindowGeometry) -> int {
    d.last_app_rect.right - frame_right(g)
}

pub open spec fn monitor_visible_width(d: DockState, wt: WindowRect, g: WindowGeometry) -> int {
    match d.side {
        DockSide::Left => if only_left_moved(d, wt) {
            max_int(wt.left - (d.last_app_rect.left + frame_left(g)), MIN_SIDEBAR_WIDTH as int)
        } else {
            kept_visible_width(d)
        },
        DockSide::Right => if only_right_moved(d, wt) {
            max_int(fixed_right(d, g) - wt.right, MIN_SIDEBAR_WIDTH as int)
        } else {
            kept_visible_width(d)
        },
    }
}

pub open spec fn monitor_visible_left(d: DockState, wt: WindowRect, g: WindowGeometry) -> int {
    match d.side {
        DockSide::Left => wt.left - monitor_visible_width(d, wt, g),
        DockSide::Right => if only_right_moved(d, wt) {
            fixed_right(d, g) - monitor_visible_width(d, wt, g)
        } else {
            wt.right as int
        },
    }
}

pub open spec fn monitor_x(d: DockState, wt: WindowRect, g: WindowGeometry) -> int {
    monitor_visible_left(d, wt, g) - frame_left(g)
}

pub open spec fn monitor_y(wt: WindowRect, g: WindowGeometry) -> int {
    wt.top - frame_top(g)
}

pub open spec fn monitor_width(d: DockState, wt: WindowRect, g: WindowGeometry) -> int {
    monitor_visible_width(d, wt, g) + frame_left(g) + frame_right(g)
}

pub open spec fn monitor_height(wt: WindowRect, g: WindowGeometry) -> int {
    height_of(wt) + frame_top(g) + frame_bottom(g)
}

pub open spec fn monitor_overflows(d: DockState, wt: WindowRect, g: WindowGeometry) -> bool {
    ||| !frames_fit(g)
    ||| !fits(width_of(d.last_app_rect))
    ||| !fits(wt.left - d.last_wt_rect.left)
    ||| !fits(wt.right - d.last_wt_rect.right)
    ||| (d.side == DockSide::Left && only_left_moved(d, wt) && (!fits(
        d.last_app_rect.left + frame_left(g),
    ) || !fits(wt.left - (d.last_app_rect.left + frame_left(g)))))
    ||| (d.side == DockSide::Right && only_right_moved(d, wt) && (!fits(fixed_right(d, g)) || !fits(
        fixed_right(d, g) - wt.right,
    )))
    ||| !fits(monitor_visible_left(d, wt, g))
    ||| !fits(monitor_x(d, wt, g))
    ||| !fits(monitor_y(wt, g))
    ||| !fits(monitor_visible_width(d, wt, g) + frame_left(g))
    ||| !fits(monitor_width(d, wt, g))
    ||| !fits(height_of(wt))
    ||| !fits(height_of(wt) + frame_top(g))
    ||| !fits(monitor_height(wt, g))
}

/// Where the app window goes after the terminal window moved to `wt_rect`:
/// beside it on the dock's side, top and bottom aligned with it. When the
/// terminal's inner edge alone was dragged, the app window's outer edge stays
/// and its width changes (at least `MIN_SIDEBAR_WIDTH`); otherwise it keeps
/// its width.
pub fn plan_monitor_follow(dock: &DockState, wt_rect: &WindowRect, app: &WindowGeometry) -> (r:
    Result<WindowPlacement, ArithmeticOverflow>)
    ensures
        match r {
            Err(_) => monitor_overflows(*dock, *wt_rect, *app),
            Ok(p) => {
                &&& !monitor_overflows(*dock, *wt_rect, *app)
                &&& p.x == monitor_x(*dock, *wt_rect, *app)
                &&& p.y == monitor_y(*wt_rect, *app)
                &&& p.width == monitor_width(*dock, *wt_rect, *app)
                &&& p.height == monitor_height(*wt_rect, *app)
            },
        },
{
    let a = app.actual;
    let v = app.visible;
    let la = dock.last_app_rect;
    let lw = dock.last_wt_rect;
    let fl = v.left as i64 - a.left as i64;
    let fr = a.right as i64 - v.right as i64;
    let ft = v.top as i64 - a.top as i64;
    let fb = a.bottom as i64 - v.bottom as i64;
    let law = la.right as i64 - la.left as i64;
    let dl = wt_rect.left as i64 - lw.left as i64;
    let dr = wt_rect.right as i64 - lw.right as i64;
    if !fits64(fl) || !fits64(fr) || !fits64(ft) || !fits64(fb) || !fits64(law) || !fits64(dl)
        || !fits64(dr) {
        return Err(ArithmeticOverflow);
    }
    let kept = if law >= 220 {
        law
    } else {
        220
    };
    let vw: i64;
    let vl: i64;
    match dock.side {
        DockSide::Left => {
            if dl != 0 && dr == 0 {
                let inner = la.left as i64 + fl;
                if !fits64(inner) {
                    return Err(ArithmeticOverflow);
                }
                let span = wt_rect.left as i64 - inner;
                if !fits64(span) {
                    return Err(ArithmeticOverflow);
                }
                vw = if span >= 220 {
                    span
                } else {
                    220
                };
            } else {
                vw = kept;
            }
            vl = wt_rect.left as i64 - vw;
        },
        DockSide::Right => {
            if dr != 0 && dl == 0 {
                let rf = la.right as i64 - fr;
                if !fits64(rf) {
                    return Err(ArithmeticOverflow);
                }
                let span = rf - wt_rect.right as i64;
                if !fits64(span) {
                    return Err(ArithmeticOverflow);
                }
                vw = if span >= 220 {
                    span
                } else {
                    220
                };
                vl = rf - vw;
            } else {
                vw = kept;
                vl = wt_rect.right as i64;
            }
        },
    }
    let x = vl - fl;
    let y = wt_rect.top as i64 - ft;
    let w1 = vw + fl;
    let w = w1 + fr;
    let h0 = wt_rect.bottom as i64 - wt_rect.top as i64;
    let h1 = h0 + ft;
    let h = h1 + fb;
    if !fits64(vl) || !fits64(x) || !fits64(y) || !fits64(w1) || !fits64(w) || !fits64(h0)
        || !fits64(h1) || !fits64(h) {
        return Err(ArithmeticOverflow);
    }
    Ok(WindowPlacement { x: narrow(x), y: narrow(y), width: narrow(w), height: narrow(h) })
}

/// What a tick of the dock monitor does.
#[derive(Clone, Copy, Debug, PartialEq, Eq, Structural)]
pub enum MonitorAction {
    /// The terminal window is maximized: undock.
    Undock,
    /// Nothing to do this tick.
    Skip,
    /// Put the app window here to follow the terminal.
    Move(WindowPlacement),
}

/// Decides a tick of the dock monitor from what was read of the windows:
/// whether the terminal window is maximized, its visible rectangle and the
/// app window's geometry (none where the read failed). A maximized terminal
/// undocks; a terminal that could not be read or has not moved since it was
/// last put, or an app window that could not be read, is left alone;
/// otherwise the app window follows the terminal as `plan_monitor_follow`
/// places it.
pub fn monitor_step(
    dock: &DockState,
    zoomed: bool,
    wt_rect: Option<WindowRect>,
    app: Option<WindowGeometry>,
) -> (r: Result<MonitorAction, ArithmeticOverflow>)
    ensures
        zoomed ==> r == Ok::<MonitorAction, ArithmeticOverflow>(MonitorAction::Undock),
        !zoomed && (wt_rect is None || wt_rect == Some(dock.last_wt_rect) || app is None) ==> r
            == Ok::<MonitorAction, ArithmeticOverflow>(MonitorAction::Skip),
        !zoomed && wt_rect is Some && wt_rect != Some(dock.last_wt_rect) && app is Some ==> match r {
            Err(_) => monitor_overflows(*dock, wt_rect.unwrap(), app.unwrap()),
            Ok(MonitorAction::Move(p)) => {
                &&& !monitor_overflows(*dock, wt_rect.unwrap(), app.unwrap())
                &&& p.x == monitor_x(*dock, wt_rect.unwrap(), app.unwrap())
                &&& p.y == monitor_y(wt_rect.unwrap(), app.unwrap())
                &&& p.width == monitor_width(*dock, wt_rect.unwrap(), app.unwrap())
                &&& p.height == monitor_height(wt_rect.unwrap(), app.unwrap())
            },
            Ok(_) => false,
        },
{
    if zoomed {
        return Ok(MonitorAction::Undock);
    }
    let wt = match wt_rect {
        Some(w) => w,
        None => {
            return Ok(MonitorAction::Skip);
        },
    };
    if !dock.terminal_moved(&wt) {
        return Ok(MonitorAction::Skip);
    }
    let g = match app {
        Some(g) => g,
        None => {
            return Ok(MonitorAction::Skip);
        },
    };
    match plan_monitor_follow(dock, &wt, &g) {
        Err(e) => Err(e),
        Ok(p) => Ok(MonitorAction::Move(p)),
    }
}

impl DockState {
    /// The dock after the app window was put at `placement` to follow the
    /// terminal, now at `wt_rect`, at time `now` (milliseconds).
    pub fn after_monitor_follow(
        &self,
        wt_rect: &WindowRect,
        placement: &WindowPlacement,
        now: u128,
    ) -> (r: Result<DockState, ArithmeticOverflow>)
        requires
            now <= MAX_CLOCK_MS,
        ensures
            match r {
                Err(_) => !placement_end_fits(*placement),
                Ok(d) => placement_end_fits(*placement) && d == DockState {
                    last_wt_rect: *wt_rect,
                    last_app_rect: placed_rect(*placement),
                    ignore_app_moves_until_ms: (now + IGNORE_APP_MOVES_MS) as u128,
                    ..*self
                },
            },
    {
        let right = placement.x as i64 + placement.width as i64;
        let bottom = placement.y as i64 + placement.height as i64;
        if !fits64(right) || !fits64(bottom) {
            return Err(ArithmeticOverflow);
        }
        Ok(
            DockState {
                last_wt_rect: *wt_rect,
                last_app_rect: WindowRect {
                    left: placement.x,
                    top: placement.y,
                    right: narrow(right),
                    bottom: narrow(bottom),
                },
                ignore_app_moves_until_ms: now + 500,
                ..*self
            },
        )
    }
}

// ---------------------------------------------------------------------------
// What every plan keeps.
// ---------------------------------------------------------------------------
/// A snapped app window sits flush against the terminal window on the dock's
/// side, its visible part spans the terminal's height exactly, and it is at
/// least `MIN_SIDEBAR_WIDTH` wide.
pub proof fn lemma_snap_flush(side: DockSide, wt: WindowRect, g: WindowGeometry)
    ensures
        side == DockSide::Left ==> snap_x(side, wt, g) + snap_width(g) - frame_right(g) == wt.left,
        side == DockSide::Right ==> snap_x(side, wt, g) + frame_left(g) == wt.right,
        snap_y(wt, g) + frame_top(g) == wt.top,
        snap_y(wt, g) + snap_height(wt, g) - frame_bottom(g) == wt.bottom,
        snap_width(g) - frame_left(g) - frame_right(g) >= MIN_SIDEBAR_WIDTH,
{
}

/// A terminal window moved to follow the app sits flush against the app's
/// visible part on the side away from the dock side, top-aligned with it,
/// at least `MIN_WT_WIDTH` wide and at least one pixel tall.
pub proof fn lemma_follow_flush(side: DockSide, wt: WindowRect, app_visible: WindowRect)
    ensures
        side == DockSide::Left ==> follow_x(side, wt, app_visible) == app_visible.right,
        side == DockSide::Right ==> follow_x(side, wt, app_visible) + follow_width(wt)
            == app_visible.left,
        follow_width(wt) >= MIN_WT_WIDTH,
        follow_height(app_visible) >= 1,
        height_of(app_visible) >= 1 ==> follow_height(app_visible) == height_of(app_visible),
{
}

/// An app window moved to follow the terminal is top and bottom aligned with
/// it and at least `MIN_SIDEBAR_WIDTH` wide; on a left dock its visible right
/// edge meets the terminal's left edge; on a right dock its visible left edge
/// meets the terminal's right edge, except when the terminal's right edge
/// alone was dragged, when its visible right edge stays where it was.
pub proof fn lemma_monitor_flush(d: DockState, wt: WindowRect, g: WindowGeometry)
    ensures
        monitor_y(wt, g) + frame_top(g) == wt.top,
        monitor_y(wt, g) + monitor_height(wt, g) - frame_bottom(g) == wt.bottom,
        monitor_width(d, wt, g) - frame_left(g) - frame_right(g) >= MIN_SIDEBAR_WIDTH,
        d.side == DockSide::Left ==> monitor_x(d, wt, g) + monitor_width(d, wt, g) - frame_right(g)
            == wt.left,
        d.side == DockSide::Right && !only_right_moved(d, wt) ==> monitor_x(d, wt, g) + frame_left(
            g,
        ) == wt.right,
        d.side == DockSide::Right && only_right_moved(d, wt) ==> monitor_x(d, wt, g)
            + monitor_width(d, wt, g) - frame_right(g) == fixed_right(d, g),
        d.side == DockSide::Right && only_right_moved(d, wt) && fixed_right(d, g) - wt.right
            >= MIN_SIDEBAR_WIDTH ==> monitor_x(d, wt, g) + frame_left(g) == wt.right,
{
}

/// Right after a snap or a followed terminal move at `now`, moves of the app
/// window are not followed for `IGNORE_APP_MOVES_MS`.
pub proof fn lemma_quiet_after_placement(ignore_until: u128, now: u128, later: u128)
    requires
        now <= MAX_CLOCK_MS,
        ignore_until == now + IGNORE_APP_MOVES_MS,
    ensures
        later < now + IGNORE_APP_MOVES_MS ==> !(later >= ignore_until),
        later >= now + IGNORE_APP_MOVES_MS ==> later >= ignore_until,
{
}

/// The snap side, in the windows' own coordinates. With the app window's top
/// edge between the terminal's top edge (less the slack) and its bottom edge,
/// the app snaps on the left exactly when its visible right edge is within
/// `threshold` of the terminal's left edge, on either side of it; otherwise
/// on the right exactly when its visible left edge is within `threshold` of
/// the terminal's right edge; otherwise not at all. Out of that band it never
/// snaps.
pub proof fn lemma_snap_side_by_distance(threshold: int, wt: WindowRect, g: WindowGeometry)
    requires
        fits(g.visible.left - g.actual.left),
        fits(g.visible.top - g.actual.top),
        fits(g.actual.right - g.visible.right),
        fits(g.actual.bottom - g.visible.bottom),
        fits(g.visible.right - g.visible.left),
        fits(g.visible.right - wt.left),
        fits(wt.left - g.visible.right),
        fits(g.visible.left - wt.right),
        fits(wt.right - g.visible.left),
        fits(g.visible.top + 48),
    ensures
        g.visible.top > wt.bottom || g.visible.top + 48 < wt.top ==> snap_side_spec(threshold, wt, g)
            == Ok::<Option<DockSide>, ArithmeticOverflow>(None),
        g.visible.top <= wt.bottom && g.visible.top + 48 >= wt.top ==> {
            &&& (snap_side_spec(threshold, wt, g) == Ok::<Option<DockSide>, ArithmeticOverflow>(
                Some(DockSide::Left),
            )) == (-threshold <= g.visible.right - wt.left <= threshold)
            &&& (snap_side_spec(threshold, wt, g) == Ok::<Option<DockSide>, ArithmeticOverflow>(
                Some(DockSide::Right),
            )) == (!(-threshold <= g.visible.right - wt.left <= threshold) && -threshold
                <= g.visible.left - wt.right <= threshold)
            &&& (snap_side_spec(threshold, wt, g) == Ok::<Option<DockSide>, ArithmeticOverflow>(
                None,
            )) == (!(-threshold <= g.visible.right - wt.left <= threshold) && !(-threshold
                <= g.visible.left - wt.right <= threshold))
        },
{
}

/// A terminal that follows the app keeps its width when it is at least
/// `MIN_WT_WIDTH` wide, and is widened to `MIN_WT_WIDTH` otherwise; it is as
/// tall as the app's visible part, and at least one pixel.
pub proof fn lemma_follow_keeps_terminal_size(side: DockSide, wt: WindowRect, app_visible: WindowRect)
    ensures
        wt.right - wt.left >= 480 ==> follow_width(wt) == wt.right - wt.left,
        wt.right - wt.left < 480 ==> follow_width(wt) == 480,
        app_visible.bottom - app_visible.top >= 1 ==> follow_height(app_visible)
            == app_visible.bottom - app_visible.top,
        app_visible.bottom - app_visible.top < 1 ==> follow_height(app_visible) == 1,
{
}

/// How the app window follows the terminal, in the windows' own coordinates.
/// On a left dock whose terminal's left edge alone was dragged, the app keeps
/// its visible left edge and its visible width becomes the gap up to the
/// terminal (at least `MIN_SIDEBAR_WIDTH`); on a right dock whose terminal's
/// right edge alone was dragged, the app keeps its visible right edge and its
/// visible width becomes the gap down to the terminal (at least
/// `MIN_SIDEBAR_WIDTH`); in every other case it keeps its last full width as
/// visible width (at least `MIN_SIDEBAR_WIDTH`).
pub proof fn lemma_monitor_follow_width(d: DockState, wt: WindowRect, g: WindowGeometry)
    ensures
        ({
            let fl = g.visible.left - g.actual.left;
            let fr = g.actual.right - g.visible.right;
            let vw = monitor_width(d, wt, g) - fl - fr;
            let left_only = wt.left != d.last_wt_rect.left && wt.right == d.last_wt_rect.right;
            let right_only = wt.right != d.last_wt_rect.right && wt.left == d.last_wt_rect.left;
            let gap_left = wt.left - (d.last_app_rect.left + fl);
            let gap_right = (d.last_app_rect.right - fr) - wt.right;
            let kept = d.last_app_rect.right - d.last_app_rect.left;
            &&& d.side == DockSide::Left && left_only ==> vw == (if gap_left >= 220 {
                gap_left
            } else {
                220
            })
            &&& d.side == DockSide::Left && left_only && gap_left >= 220 ==> monitor_x(d, wt, g)
                == d.last_app_rect.left
            &&& d.side == DockSide::Right && right_only ==> vw == (if gap_right >= 220 {
                gap_right
            } else {
                220
            })
            &&& d.side == DockSide::Right && right_only ==> monitor_x(d, wt, g) + monitor_width(
                d,
                wt,
                g,
            ) == d.last_app_rect.right
            &&& (d.side == DockSide::Left && !left_only) || (d.side == DockSide::Right
                && !right_only) ==> vw == (if kept >= 220 {
                kept
            } else {
                220
            })
            &&& d.side == DockSide::Left ==> monitor_x(d, wt, g) + fl + vw == wt.left
            &&& d.side == DockSide::Right && !right_only ==> monitor_x(d, wt, g) + fl == wt.right
        }),
{
}

} // verus!
