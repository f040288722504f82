//! Window geometry: docking a window against an edge of the work area,
//! hiding it so that only a thin strip stays on screen, and placing the
//! expanded panel inside the work area.

use vstd::prelude::*;

verus! {

/// Distance from the work-area border that the expanded panel keeps.
pub const WINDOW_MARGIN: i32 = 5;

/// A window released this close to an edge docks against it.
pub const SNAP_THRESHOLD: i32 = 40;

/// Width of the strip of a hidden docked window that stays on screen.
pub const SNAP_REVEAL_SIZE: i32 = 6;

/// The cursor this close to the docking edge reveals a hidden window.
pub const SNAP_SHOW_THRESHOLD: i32 = 8;

/// The cursor this far from the docking edge hides a revealed window.
pub const SNAP_HIDE_THRESHOLD: i32 = 120;

/// The screen edge a window is docked against; `Free` when it is not docked.
#[derive(Clone, Copy, Debug, PartialEq, Eq, Structural)]
pub enum SnapState {
    Free,
    Left,
    Right,
    Top,
    Bottom,
}

impl SnapState {
    /// Whether the window is docked at all.
    pub fn is_snapped(&self) -> (r: bool)
        ensures
            r == (*self != SnapState::Free),
    {
        !matches!(*self, SnapState::Free)
    }
}

/// A window's outer position and inner size, in physical pixels.
#[derive(Clone, Copy, Debug, PartialEq, Eq, Structural)]
pub struct WindowBounds {
    pub x: i32,
    pub y: i32,
    pub width: u32,
    pub height: u32,
}

/// The part of a monitor that windows may use (the screen without the taskbar).
#[derive(Clone, Copy, Debug, PartialEq, Eq, Structural)]
pub struct WorkArea {
    pub x: i32,
    pub y: i32,
    pub width: u32,
    pub height: u32,
}

/// A size as the window code reads it when it adds it to a coordinate:
/// the `u32` taken as an `i32`.
pub open spec fn signed(v: u32) -> int {
    (v as i32) as int
}

pub open spec fn fits_i32(v: int) -> bool {
    i32::MIN <= v <= i32::MAX
}

/// The edge a window with bounds `b` docks against when it is released.
/// The left edge is tried first, then the right, the top and the bottom.
pub open spec fn snap_edge_for(b: WindowBounds, w: WorkArea) -> SnapState {
    if b.x <= w.x + SNAP_THRESHOLD {
        SnapState::Left
    } else if b.x + signed(b.width) >= w.x + signed(w.width) - SNAP_THRESHOLD {
        SnapState::Right
    } else if b.y <= w.y + SNAP_THRESHOLD {
        SnapState::Top
    } else if b.y + signed(b.height) >= w.y + signed(w.height) - SNAP_THRESHOLD {
        SnapState::Bottom
    } else {
        SnapState::Free
    }
}

/// The x coordinate of `b` docked flush against edge `s`.
pub open spec fn docked_x(b: WindowBounds, s: SnapState, w: WorkArea) -> int {
    match s {
        SnapState::Left => w.x as int,
        SnapState::Right => w.x + signed(w.width) - signed(b.width),
        _ => b.x as int,
    }
}

/// The y coordinate of `b` docked flush against edge `s`.
pub open spec fn docked_y(b: WindowBounds, s: SnapState, w: WorkArea) -> int {
    match s {
        SnapState::Top => w.y as int,
        SnapState::Bottom => w.y + signed(w.height) - signed(b.height),
        _ => b.y as int,
    }
}

/// The x coordinate of `b` pushed past edge `s` so that a strip of
/// `SNAP_REVEAL_SIZE` pixels stays inside the work area.
pub open spec fn hidden_x(b: WindowBounds, s: SnapState, w: WorkArea) -> int {
    match s {
        SnapState::Left => w.x - signed(b.width) + SNAP_REVEAL_SIZE,
        SnapState::Right => w.x + signed(w.width) - SNAP_REVEAL_SIZE,
        _ => b.x as int,
    }
}

/// The y coordinate of `b` pushed past edge `s`, as `hidden_x`.
pub open spec fn hidden_y(b: WindowBounds, s: SnapState, w: WorkArea) -> int {
    match s {
        SnapState::Top => w.y - signed(b.height) + SNAP_REVEAL_SIZE,
        SnapState::Bottom => w.y + signed(w.height) - SNAP_REVEAL_SIZE,
        _ => b.y as int,
    }
}

pub open spec fn docked_fits(b: WindowBounds, s: SnapState, w: WorkArea) -> bool {
    fits_i32(docked_x(b, s, w)) && fits_i32(docked_y(b, s, w))
}

pub open spec fn hidden_fits(b: WindowBounds, s: SnapState, w: WorkArea) -> bool {
    fits_i32(hidden_x(b, s, w)) && fits_i32(hidden_y(b, s, w))
}

fn signed_i64(v: u32) -> (r: i64)
    ensures
        r == signed(v),
{
    (v as i32) as i64
}

fn fits_exec(v: i64) -> (r: bool)
    ensures
        r == fits_i32(v as int),
{
    i32::MIN as i64 <= v && v <= i32::MAX as i64
}

fn docked_x_exec(b: WindowBounds, s: SnapState, w: WorkArea) -> (r: i64)
    ensures
        r == docked_x(b, s, w),
{
    match s {
        SnapState::Left => w.x as i64,
        SnapState::Right => w.x as i64 + signed_i64(w.width) - signed_i64(b.width),
        _ => b.x as i64,
    }
}

fn docked_y_exec(b: WindowBounds, s: SnapState, w: WorkArea) -> (r: i64)
    ensures
        r == docked_y(b, s, w),
{
    match s {
        SnapState::Top => w.y as i64,
        SnapState::Bottom => w.y as i64 + signed_i64(w.height) - signed_i64(b.height),
        _ => b.y as i64,
    }
}

fn hidden_x_exec(b: WindowBounds, s: SnapState, w: WorkArea) -> (r: i64)
    ensures
        r == hidden_x(b, s, w),
{
    match s {
        SnapState::Left => w.x as i64 - signed_i64(b.width) + SNAP_REVEAL_SIZE as i64,
        SnapState::Right => w.x as i64 + signed_i64(w.width) - SNAP_REVEAL_SIZE as i64,
        _ => b.x as i64,
    }
}

fn hidden_y_exec(b: WindowBounds, s: SnapState, w: WorkArea) -> (r: i64)
    ensures
        r == hidden_y(b, s, w),
{
    match s {
        SnapState::Top => w.y as i64 - signed_i64(b.height) + SNAP_REVEAL_SIZE as i64,
        SnapState::Bottom => w.y as i64 + signed_i64(w.height) - SNAP_REVEAL_SIZE as i64,
        _ => b.y as i64,
    }
}

/// Whether the docked position of `b` fits in an `i32` (see `docked_fits`).
pub fn docked_in_range(b: WindowBounds, s: SnapState, w: WorkArea) -> (r: bool)
    ensures
        r == docked_fits(b, s, w),
{
    fits_exec(docked_x_exec(b, s, w)) && fits_exec(docked_y_exec(b, s, w))
}

/// Whether the hidden position of `b` fits in an `i32` (see `hidden_fits`).
pub fn hidden_in_range(b: WindowBounds, s: SnapState, w: WorkArea) -> (r: bool)
    ensures
        r == hidden_fits(b, s, w),
{
    fits_exec(hidden_x_exec(b, s, w)) && fits_exec(hidden_y_exec(b, s, w))
}

/// `b` docked flush against edge `s` (unchanged for `SnapState::Free`).
pub fn docked_bounds(b: WindowBounds, s: SnapState, w: WorkArea) -> (r: WindowBounds)
    requires
        docked_fits(b, s, w),
    ensures
        r.x == docked_x(b, s, w),
        r.y == docked_y(b, s, w),
        r.width == b.width,
        r.height == b.height,
{
    WindowBounds { x: docked_x_exec(b, s, w) as i32, y: docked_y_exec(b, s, w) as i32, ..b }
}

/// `b` pushed past edge `s` so that only a strip of `SNAP_REVEAL_SIZE`
/// pixels stays on screen (unchanged for `SnapState::Free`).
pub fn hidden_bounds(b: WindowBounds, s: SnapState, w: WorkArea) -> (r: WindowBounds)
    requires
        hidden_fits(b, s, w),
    ensures
        r.x == hidden_x(b, s, w),
        r.y == hidden_y(b, s, w),
        r.width == b.width,
        r.height == b.height,
{
    WindowBounds { x: hidden_x_exec(b, s, w) as i32, y: hidden_y_exec(b, s, w) as i32, ..b }
}

/// The edge a window with bounds `b` docks against when it is released.
pub fn snap_edge(b: WindowBounds, w: WorkArea) -> (r: SnapState)
    ensures
        r == snap_edge_for(b, w),
{
    let bx: i64 = b.x as i64;
    let by: i64 = b.y as i64;
    let wx: i64 = w.x as i64;
    let wy: i64 = w.y as i64;
    if bx <= wx + SNAP_THRESHOLD as i64 {
        SnapState::Left
    } else if bx + signed_i64(b.width) >= wx + signed_i64(w.width) - SNAP_THRESHOLD as i64 {
        SnapState::Right
    } else if by <= wy + SNAP_THRESHOLD as i64 {
        SnapState::Top
    } else if by + signed_i64(b.height) >= wy + signed_i64(w.height) - SNAP_THRESHOLD as i64 {
        SnapState::Bottom
    } else {
        SnapState::Free
    }
}


/// What releasing a window does: nothing when it is far from every edge,
/// else dock it against `edge` at `target` and hide it at `hidden`.
#[derive(Clone, Copy, Debug, PartialEq, Eq, Structural)]
pub enum EdgeSnapPlan {
    Release,
    Dock { edge: SnapState, target: WindowBounds, hidden: WindowBounds },
}

/// The coordinates a released window docks and hides at fit in an `i32`.
pub open spec fn edge_snap_fits(b: WindowBounds, w: WorkArea) -> bool {
    let s = snap_edge_for(b, w);
    s != SnapState::Free ==> docked_fits(b, s, w) && hidden_fits(b, s, w)
}

/// Whether the coordinates a released window docks and hides at fit in an `i32`.
pub fn edge_snap_in_range(b: WindowBounds, w: WorkArea) -> (r: bool)
    ensures
        r == edge_snap_fits(b, w),
{
    let s = snap_edge(b, w);
    !s.is_snapped() || (docked_in_range(b, s, w) && hidden_in_range(b, s, w))
}

/// Where a window released with bounds `b` goes: the edge it is nearest to
/// (left, right, top, bottom in that order, within `SNAP_THRESHOLD`), the
/// position flush against that edge, and the hidden position past it.
pub fn plan_edge_snap(b: WindowBounds, w: WorkArea) -> (r: EdgeSnapPlan)
    requires
        edge_snap_fits(b, w),
    ensures
        (r is Release) <==> snap_edge_for(b, w) == SnapState::Free,
        r matches EdgeSnapPlan::Dock { edge, target, hidden } ==> {
            &&& edge == snap_edge_for(b, w)
            &&& target.x == docked_x(b, edge, w)
            &&& target.y == docked_y(b, edge, w)
            &&& target.width == b.width
            &&& target.height == b.height
            &&& hidden.x == hidden_x(target, edge, w)
            &&& hidden.y == hidden_y(target, edge, w)
            &&& hidden.width == b.width
            &&& hidden.height == b.height
        },
{
    let edge = snap_edge(b, w);
    if !edge.is_snapped() {
        return EdgeSnapPlan::Release;
    }
    let target = docked_bounds(b, edge, w);
    let hidden = hidden_bounds(target, edge, w);
    EdgeSnapPlan::Dock { edge, target, hidden }
}

/// `v` clamped into `[lo, hi]`, as `i32::clamp` computes it.
pub open spec fn clamp_int(v: int, lo: int, hi: int) -> int {
    if v < lo {
        lo
    } else if v > hi {
        hi
    } else {
        v
    }
}

/// The work area given as the four values the window code passes around.
pub open spec fn work_area(x: i32, y: i32, width: u32, height: u32) -> WorkArea {
    WorkArea { x, y, width, height }
}

/// The x coordinate of a `panel_w` wide panel docked against edge `s`,
/// slid along a top or bottom edge into the margins.
pub open spec fn visible_x(b: WindowBounds, s: SnapState, panel_w: u32, w: WorkArea) -> int {
    match s {
        SnapState::Left => w.x as int,
        SnapState::Right => w.x + signed(w.width) - signed(panel_w),
        _ => clamp_int(
            b.x as int,
            w.x + WINDOW_MARGIN,
            w.x + signed(w.width) - signed(panel_w) - WINDOW_MARGIN,
        ),
    }
}

/// The y coordinate of a `panel_h` high panel docked against edge `s`,
/// slid along a left or right edge into the margins.
pub open spec fn visible_y(b: WindowBounds, s: SnapState, panel_h: u32, w: WorkArea) -> int {
    match s {
        SnapState::Top => w.y as int,
        SnapState::Bottom => w.y + signed(w.height) - signed(panel_h),
        _ => clamp_int(
            b.y as int,
            w.y + WINDOW_MARGIN,
            w.y + signed(w.height) - signed(panel_h) - WINDOW_MARGIN,
        ),
    }
}

/// The clamp range along the docking edge is not empty: the panel fits
/// between the margins (clamping with an empty range panics).
pub open spec fn visible_range_ok(s: SnapState, panel_w: u32, panel_h: u32, w: WorkArea) -> bool {
    match s {
        SnapState::Left | SnapState::Right => w.y + WINDOW_MARGIN <= w.y + signed(w.height)
            - signed(panel_h) - WINDOW_MARGIN,
        SnapState::Top | SnapState::Bottom => w.x + WINDOW_MARGIN <= w.x + signed(w.width)
            - signed(panel_w) - WINDOW_MARGIN,
        SnapState::Free => true,
    }
}

pub open spec fn visible_fits(b: WindowBounds, s: SnapState, panel_w: u32, panel_h: u32, w: WorkArea) -> bool {
    s != SnapState::Free ==> {
        &&& visible_range_ok(s, panel_w, panel_h, w)
        &&& fits_i32(visible_x(b, s, panel_w, w))
        &&& fits_i32(visible_y(b, s, panel_h, w))
    }
}

fn clamp_i64(v: i64, lo: i64, hi: i64) -> (r: i64)
    requires
        lo <= hi,
    ensures
        r == clamp_int(v as int, lo as int, hi as int),
{
    if v < lo {
        lo
    } else if v > hi {
        hi
    } else {
        v
    }
}

/// Whether `visible_bounds_for_snap` can place the panel (see `visible_fits`).
pub fn visible_in_range(b: WindowBounds, s: SnapState, panel_w: u32, panel_h: u32, w: WorkArea) -> (r: bool)
    ensures
        r == visible_fits(b, s, panel_w, panel_h, w),
{
    if !s.is_snapped() {
        return true;
    }
    let wx: i64 = w.x as i64;
    let wy: i64 = w.y as i64;
    let max_x: i64 = wx + signed_i64(w.width) - signed_i64(panel_w) - WINDOW_MARGIN as i64;
    let max_y: i64 = wy + signed_i64(w.height) - signed_i64(panel_h) - WINDOW_MARGIN as i64;
    let min_x: i64 = wx + WINDOW_MARGIN as i64;
    let min_y: i64 = wy + WINDOW_MARGIN as i64;
    match s {
        SnapState::Left | SnapState::Right => {
            if min_y > max_y {
                return false;
            }
            let x: i64 = if s == SnapState::Left {
                wx
            } else {
                wx + signed_i64(w.width) - signed_i64(panel_w)
            };
            fits_exec(x) && fits_exec(clamp_i64(b.y as i64, min_y, max_y))
        },
        _ => {
            if min_x > max_x {
                return false;
            }
            let y: i64 = if s == SnapState::Top {
                wy
            } else {
                wy + signed_i64(w.height) - signed_i64(panel_h)
            };
            fits_exec(clamp_i64(b.x as i64, min_x, max_x)) && fits_exec(y)
        },
    }
}

/// The bounds of a `panel_w` x `panel_h` window shown docked against edge
/// `snap_state`, kept at the position along the edge where `bounds` was
/// (within the margins); `None` when the window is not docked.
pub fn visible_bounds_for_snap(
    bounds: WindowBounds,
    snap_state: SnapState,
    panel_w: u32,
    panel_h: u32,
    work_x: i32,
    work_y: i32,
    work_w: u32,
    work_h: u32,
) -> (r: Option<WindowBounds>)
    requires
        visible_fits(bounds, snap_state, panel_w, panel_h, work_area(work_x, work_y, work_w, work_h)),
    ensures
        (r is None) <==> snap_state == SnapState::Free,
        r matches Some(v) ==> {
            let w = work_area(work_x, work_y, work_w, work_h);
            &&& v.x == visible_x(bounds, snap_state, panel_w, w)
            &&& v.y == visible_y(bounds, snap_state, panel_h, w)
            &&& v.width == panel_w
            &&& v.height == panel_h
        },
{
    if !snap_state.is_snapped() {
        return None;
    }
    let wx: i64 = work_x as i64;
    let wy: i64 = work_y as i64;
    let max_x: i64 = wx + signed_i64(work_w) - signed_i64(panel_w) - WINDOW_MARGIN as i64;
    let max_y: i64 = wy + signed_i64(work_h) - signed_i64(panel_h) - WINDOW_MARGIN as i64;
    let min_x: i64 = wx + WINDOW_MARGIN as i64;
    let min_y: i64 = wy + WINDOW_MARGIN as i64;
    let target = match snap_state {
        SnapState::Left => WindowBounds {
            x: work_x,
            y: clamp_i64(bounds.y as i64, min_y, max_y) as i32,
            width: panel_w,
            height: panel_h,
        },
        SnapState::Right => WindowBounds {
            x: (wx + signed_i64(work_w) - signed_i64(panel_w)) as i32,
            y: clamp_i64(bounds.y as i64, min_y, max_y) as i32,
            width: panel_w,
            height: panel_h,
        },
        SnapState::Top => WindowBounds {
            x: clamp_i64(bounds.x as i64, min_x, max_x) as i32,
            y: work_y,
            width: panel_w,
            height: panel_h,
        },
        _ => WindowBounds {
            x: clamp_i64(bounds.x as i64, min_x, max_x) as i32,
            y: (wy + signed_i64(work_h) - signed_i64(panel_h)) as i32,
            width: panel_w,
            height: panel_h,
        },
    };
    Some(target)
}

/// One coordinate of the expanded panel: `start`, moved back so that the
/// panel ends a margin before the far border, then moved forward so that it
/// starts a margin after the near border `lo` (the near border wins when
/// the panel does not fit).
pub open spec fn expanded_coord(start: int, lo: int, extent: u32, panel: u32) -> int {
    let far = lo + signed(extent) - WINDOW_MARGIN;
    let c = if start + signed(panel) > far {
        far - signed(panel)
    } else {
        start
    };
    if c < lo + WINDOW_MARGIN {
        lo + WINDOW_MARGIN
    } else {
        c
    }
}

pub open spec fn expanded_fits(start: int, lo: int, extent: u32, panel: u32) -> bool {
    fits_i32(expanded_coord(start, lo, extent, panel))
}

fn expanded_coord_i64(start: i32, lo: i32, extent: u32, panel: u32) -> (r: i64)
    ensures
        r == expanded_coord(start as int, lo as int, extent, panel),
{
    let far: i64 = lo as i64 + signed_i64(extent) - WINDOW_MARGIN as i64;
    let mut c: i64 = start as i64;
    if c + signed_i64(panel) > far {
        c = far - signed_i64(panel);
    }
    if c < lo as i64 + WINDOW_MARGIN as i64 {
        c = lo as i64 + WINDOW_MARGIN as i64;
    }
    c
}

/// Whether one coordinate of the expanded panel fits in an `i32`.
pub fn expanded_in_range(start: i32, lo: i32, extent: u32, panel: u32) -> (r: bool)
    ensures
        r == expanded_fits(start as int, lo as int, extent, panel),
{
    fits_exec(expanded_coord_i64(start, lo, extent, panel))
}

/// The bounds of the expanded `panel_w` x `panel_h` search panel opened from
/// the collapsed window at `start`: moved inside the work area's margins and
/// never lower than the window was (`current_height`).
pub fn expanded_bounds(start: WindowBounds, w: WorkArea, panel_w: u32, panel_h: u32, current_height: u32) -> (r: WindowBounds)
    requires
        expanded_fits(start.x as int, w.x as int, w.width, panel_w),
        expanded_fits(start.y as int, w.y as int, w.height, panel_h),
    ensures
        r.x == expanded_coord(start.x as int, w.x as int, w.width, panel_w),
        r.y == expanded_coord(start.y as int, w.y as int, w.height, panel_h),
        r.width == panel_w,
        r.height == if panel_h >= current_height { panel_h } else { current_height },
        // a panel that fits between the margins lies within them
        signed(panel_w) + 2 * WINDOW_MARGIN <= signed(w.width) ==> w.x + WINDOW_MARGIN <= r.x
            && r.x + signed(panel_w) <= w.x + signed(w.width) - WINDOW_MARGIN,
        signed(panel_h) + 2 * WINDOW_MARGIN <= signed(w.height) ==> w.y + WINDOW_MARGIN <= r.y
            && r.y + signed(panel_h) <= w.y + signed(w.height) - WINDOW_MARGIN,
{
    let x = expanded_coord_i64(start.x, w.x, w.width, panel_w) as i32;
    let y = expanded_coord_i64(start.y, w.y, w.height, panel_h) as i32;
    let height = if panel_h >= current_height {
        panel_h
    } else {
        current_height
    };
    WindowBounds { x, y, width: panel_w, height }
}

/// A released window docks against the first edge, in the order left,
/// right, top, bottom, that its own border comes within `SNAP_THRESHOLD`
/// of: its left border near the work area's left border, its right border
/// (x + width) near the right border, its top near the top, its bottom
/// border (y + height) near the bottom; a window near no edge stays free.
/// Docked, the window lies flush against that edge.
pub proof fn lemma_docks_at_nearest_border(b: WindowBounds, w: WorkArea)
    ensures
        ({
            let left = b.x as int;
            let right = b.x + signed(b.width);
            let top = b.y as int;
            let bottom = b.y + signed(b.height);
            let near_left = left - w.x <= SNAP_THRESHOLD;
            let near_right = (w.x + signed(w.width)) - right <= SNAP_THRESHOLD;
            let near_top = top - w.y <= SNAP_THRESHOLD;
            let near_bottom = (w.y + signed(w.height)) - bottom <= SNAP_THRESHOLD;
            let e = snap_edge_for(b, w);
            &&& near_left ==> e == SnapState::Left
            &&& !near_left && near_right ==> e == SnapState::Right
            &&& !near_left && !near_right && near_top ==> e == SnapState::Top
            &&& !near_left && !near_right && !near_top && near_bottom ==> e == SnapState::Bottom
            &&& !near_left && !near_right && !near_top && !near_bottom ==> e == SnapState::Free
            // a window lying against the bottom border, away from the others, docks there
            &&& !near_left && !near_right && !near_top && bottom == w.y + signed(w.height) ==> e
                == SnapState::Bottom
            // docked, it touches that edge
            &&& e == SnapState::Left ==> docked_x(b, e, w) == w.x
            &&& e == SnapState::Right ==> docked_x(b, e, w) + signed(b.width) == w.x + signed(w.width)
            &&& e == SnapState::Top ==> docked_y(b, e, w) == w.y
            &&& e == SnapState::Bottom ==> docked_y(b, e, w) + signed(b.height) == w.y + signed(w.height)
            &&& (e == SnapState::Left || e == SnapState::Right) ==> docked_y(b, e, w) == b.y
            &&& (e == SnapState::Top || e == SnapState::Bottom) ==> docked_x(b, e, w) == b.x
        }),
{
}

} // verus!
