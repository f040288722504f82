//! The floating window's runtime state and every decision that changes it:
//! docking after a drag, hiding and revealing at an edge as the cursor comes
//! and goes, expanding into the search panel and collapsing back, and
//! dragging. The window system's own calls (reading bounds, moving the
//! window, asking for the cursor) are made around these functions; each
//! function takes what those calls returned and says what to do next.

use vstd::prelude::*;
use crate::geometry::{
    self, docked_bounds, docked_in_range, expanded_bounds, expanded_in_range, hidden_bounds,
    hidden_in_range, visible_bounds_for_snap, visible_in_range, SnapState, WindowBounds, WorkArea,
};

verus! {

/// One cursor coordinate, given by the whole pixel at or below it (`floor`)
/// and the whole pixel at or above it (`ceil`); the two are equal when the
/// cursor sits exactly on a pixel. Comparing these with a whole number gives
/// exactly the comparison of the coordinate itself.
#[derive(Clone, Copy, Debug, PartialEq, Eq, Structural)]
pub struct CursorCoord {
    pub floor: i64,
    pub ceil: i64,
}

impl CursorCoord {
    /// The coordinate is `<= t`.
    pub open spec fn at_most(self, t: int) -> bool {
        self.ceil <= t
    }

    /// The coordinate is `>= t`.
    pub open spec fn at_least(self, t: int) -> bool {
        self.floor >= t
    }

    /// The coordinate is `> t`.
    pub open spec fn above(self, t: int) -> bool {
        self.ceil > t
    }

    /// The coordinate is `< t`.
    pub open spec fn below(self, t: int) -> bool {
        self.floor < t
    }
}

/// The cursor position in physical pixels.
#[derive(Clone, Copy, Debug, PartialEq, Eq, Structural)]
pub struct CursorPosition {
    pub x: CursorCoord,
    pub y: CursorCoord,
}

/// The cursor is close enough to the docking edge `s` to reveal the window.
pub open spec fn reveal_wanted(s: SnapState, m: CursorPosition, w: WorkArea) -> bool {
    match s {
        SnapState::Left => m.x.at_most(w.x + geometry::SNAP_SHOW_THRESHOLD),
        SnapState::Right => m.x.at_least(
            w.x + geometry::signed(w.width) - geometry::SNAP_SHOW_THRESHOLD,
        ),
        SnapState::Top => m.y.at_most(w.y + geometry::SNAP_SHOW_THRESHOLD),
        SnapState::Bottom => m.y.at_least(
            w.y + geometry::signed(w.height) - geometry::SNAP_SHOW_THRESHOLD,
        ),
        SnapState::Free => false,
    }
}

/// The cursor is far enough from the docking edge `s` to hide the window.
pub open spec fn conceal_wanted(s: SnapState, m: CursorPosition, w: WorkArea) -> bool {
    match s {
        SnapState::Left => m.x.above(w.x + geometry::SNAP_HIDE_THRESHOLD),
        SnapState::Right => m.x.below(
            w.x + geometry::signed(w.width) - geometry::SNAP_HIDE_THRESHOLD,
        ),
        SnapState::Top => m.y.above(w.y + geometry::SNAP_HIDE_THRESHOLD),
        SnapState::Bottom => m.y.below(
            w.y + geometry::signed(w.height) - geometry::SNAP_HIDE_THRESHOLD,
        ),
        SnapState::Free => false,
    }
}

fn reveal_wanted_exec(s: SnapState, m: CursorPosition, w: WorkArea) -> (r: bool)
    ensures
        r == reveal_wanted(s, m, w),
{
    let wx: i64 = w.x as i64;
    let wy: i64 = w.y as i64;
    let t: i64 = geometry::SNAP_SHOW_THRESHOLD as i64;
    match s {
        SnapState::Left => m.x.ceil <= wx + t,
        SnapState::Right => m.x.floor >= wx + (w.width as i32) as i64 - t,
        SnapState::Top => m.y.ceil <= wy + t,
        SnapState::Bottom => m.y.floor >= wy + (w.height as i32) as i64 - t,
        SnapState::Free => false,
    }
}

fn conceal_wanted_exec(s: SnapState, m: CursorPosition, w: WorkArea) -> (r: bool)
    ensures
        r == conceal_wanted(s, m, w),
{
    let wx: i64 = w.x as i64;
    let wy: i64 = w.y as i64;
    let t: i64 = geometry::SNAP_HIDE_THRESHOLD as i64;
    match s {
        SnapState::Left => m.x.ceil > wx + t,
        SnapState::Right => m.x.floor < wx + (w.width as i32) as i64 - t,
        SnapState::Top => m.y.ceil > wy + t,
        SnapState::Bottom => m.y.floor < wy + (w.height as i32) as i64 - t,
        SnapState::Free => false,
    }
}

/// `b` with its coordinate along the docking edge `s` replaced by the one
/// remembered when the window was docked (`sy` along a left or right edge,
/// `sx` along a top or bottom edge).
pub open spec fn anchored(b: WindowBounds, s: SnapState, sx: i32, sy: i32) -> WindowBounds {
    match s {
        SnapState::Left | SnapState::Right => WindowBounds { y: sy, ..b },
        SnapState::Top | SnapState::Bottom => WindowBounds { x: sx, ..b },
        SnapState::Free => b,
    }
}

fn anchored_exec(b: WindowBounds, s: SnapState, sx: i32, sy: i32) -> (r: WindowBounds)
    ensures
        r == anchored(b, s, sx, sy),
{
    match s {
        SnapState::Left | SnapState::Right => WindowBounds { y: sy, ..b },
        SnapState::Top | SnapState::Bottom => WindowBounds { x: sx, ..b },
        SnapState::Free => b,
    }
}

/// `b` moved to `(x, y)`.
pub open spec fn placed(b: WindowBounds, x: int, y: int) -> WindowBounds {
    WindowBounds { x: x as i32, y: y as i32, ..b }
}

/// What the snap watcher read from the state in one tick.
#[derive(Clone, Copy, Debug, PartialEq, Eq, Structural)]
pub struct SnapWatch {
    pub snap_state: SnapState,
    pub is_hidden: bool,
    pub snapped_x: i32,
    pub snapped_y: i32,
    pub reveal_armed: bool,
}

/// What the snap watcher does in one tick.
#[derive(Clone, Copy, Debug, PartialEq, Eq, Structural)]
pub enum SnapPollAction {
    /// Nothing.
    Wait,
    /// The cursor has left the hidden window's edge: let the next approach reveal it.
    ArmReveal,
    /// Move the window to these bounds, on screen against its edge.
    Reveal(WindowBounds),
    /// Move the window to these bounds, hidden past its edge.
    Conceal(WindowBounds),
}

/// The decision of one snap-watcher tick, for a window now at `b`.
pub open spec fn snap_poll_plan(v: SnapWatch, m: CursorPosition, w: WorkArea, b: WindowBounds) -> SnapPollAction {
    let s = v.snap_state;
    let show = reveal_wanted(s, m, w);
    let hide = conceal_wanted(s, m, w);
    let a = anchored(b, s, v.snapped_x, v.snapped_y);
    if v.is_hidden && !v.reveal_armed && hide {
        SnapPollAction::ArmReveal
    } else if show && v.is_hidden && v.reveal_armed {
        SnapPollAction::Reveal(placed(a, geometry::docked_x(a, s, w), geometry::docked_y(a, s, w)))
    } else if hide && !v.is_hidden {
        SnapPollAction::Conceal(placed(a, geometry::hidden_x(a, s, w), geometry::hidden_y(a, s, w)))
    } else {
        SnapPollAction::Wait
    }
}

/// The bounds a tick moves the window to fit in an `i32`.
pub open spec fn snap_poll_fits(v: SnapWatch, m: CursorPosition, w: WorkArea, b: WindowBounds) -> bool {
    let s = v.snap_state;
    let a = anchored(b, s, v.snapped_x, v.snapped_y);
    &&& snap_poll_plan(v, m, w, b) is Reveal ==> geometry::docked_fits(a, s, w)
    &&& snap_poll_plan(v, m, w, b) is Conceal ==> geometry::hidden_fits(a, s, w)
}

/// Whether the bounds a tick moves the window to fit in an `i32`.
pub fn snap_poll_in_range(v: SnapWatch, m: CursorPosition, w: WorkArea, b: WindowBounds) -> (r: bool)
    ensures
        r == snap_poll_fits(v, m, w, b),
{
    let s = v.snap_state;
    let show = reveal_wanted_exec(s, m, w);
    let hide = conceal_wanted_exec(s, m, w);
    let a = anchored_exec(b, s, v.snapped_x, v.snapped_y);
    if v.is_hidden && !v.reveal_armed && hide {
        true
    } else if show && v.is_hidden && v.reveal_armed {
        docked_in_range(a, s, w)
    } else if hide && !v.is_hidden {
        hidden_in_range(a, s, w)
    } else {
        true
    }
}

/// One tick of the snap watcher: a hidden window is armed once the cursor
/// has gone far from its edge, an armed hidden window is revealed when the
/// cursor comes back to the edge, and a revealed window is hidden again
/// when the cursor goes far away.
pub fn plan_snap_poll(v: SnapWatch, m: CursorPosition, w: WorkArea, b: WindowBounds) -> (r: SnapPollAction)
    requires
        snap_poll_fits(v, m, w, b),
    ensures
        r == snap_poll_plan(v, m, w, b),
{
    let s = v.snap_state;
    let show = reveal_wanted_exec(s, m, w);
    let hide = conceal_wanted_exec(s, m, w);
    let a = anchored_exec(b, s, v.snapped_x, v.snapped_y);
    if v.is_hidden && !v.reveal_armed && hide {
        SnapPollAction::ArmReveal
    } else if show && v.is_hidden && v.reveal_armed {
        SnapPollAction::Reveal(docked_bounds(a, s, w))
    } else if hide && !v.is_hidden {
        SnapPollAction::Conceal(hidden_bounds(a, s, w))
    } else {
        SnapPollAction::Wait
    }
}

/// How far the cursor has moved since a drag began: the two coordinates of
/// the movement, and each rounded to a whole pixel.
#[derive(Clone, Copy, Debug, PartialEq, Eq, Structural)]
pub struct DragDelta {
    pub dx: CursorCoord,
    pub dy: CursorCoord,
    pub dx_rounded: i32,
    pub dy_rounded: i32,
}

/// A movement of at most `DRAG_DEAD_ZONE` pixels along both axes is not a drag.
pub const DRAG_DEAD_ZONE: i64 = 8;

/// The movement stays within the dead zone on both axes.
pub open spec fn within_dead_zone(d: DragDelta) -> bool {
    &&& d.dx.at_least(-DRAG_DEAD_ZONE) && d.dx.at_most(DRAG_DEAD_ZONE as int)
    &&& d.dy.at_least(-DRAG_DEAD_ZONE) && d.dy.at_most(DRAG_DEAD_ZONE as int)
}

/// The position a drag moves the window to fits in an `i32` (always, while
/// the movement stays within the dead zone).
pub open spec fn drag_move_fits(anchor: (i32, i32), d: DragDelta) -> bool {
    !within_dead_zone(d) ==> geometry::fits_i32(anchor.0 + d.dx_rounded) && geometry::fits_i32(
        anchor.1 + d.dy_rounded,
    )
}

/// Whether the position a drag moves the window to fits in an `i32`.
pub fn drag_move_in_range(anchor: (i32, i32), d: DragDelta) -> (r: bool)
    ensures
        r == drag_move_fits(anchor, d),
{
    let still_x = d.dx.floor >= -DRAG_DEAD_ZONE && d.dx.ceil <= DRAG_DEAD_ZONE;
    let still_y = d.dy.floor >= -DRAG_DEAD_ZONE && d.dy.ceil <= DRAG_DEAD_ZONE;
    if still_x && still_y {
        return true;
    }
    let x: i64 = anchor.0 as i64 + d.dx_rounded as i64;
    let y: i64 = anchor.1 as i64 + d.dy_rounded as i64;
    i32::MIN as i64 <= x && x <= i32::MAX as i64 && i32::MIN as i64 <= y && y <= i32::MAX as i64
}

/// Where a drag that began with the window at `anchor` moves it:
/// nowhere while the cursor stays within the dead zone, else by the rounded movement.
pub fn plan_drag_move(anchor: (i32, i32), d: DragDelta) -> (r: Option<(i32, i32)>)
    requires
        drag_move_fits(anchor, d),
    ensures
        (r is None) <==> within_dead_zone(d),
        r matches Some(p) ==> p.0 == anchor.0 + d.dx_rounded && p.1 == anchor.1 + d.dy_rounded,
{
    let still_x = d.dx.floor >= -DRAG_DEAD_ZONE && d.dx.ceil <= DRAG_DEAD_ZONE;
    let still_y = d.dy.floor >= -DRAG_DEAD_ZONE && d.dy.ceil <= DRAG_DEAD_ZONE;
    if still_x && still_y {
        None
    } else {
        Some((anchor.0 + d.dx_rounded, anchor.1 + d.dy_rounded))
    }
}


/// Where collapsing the panel puts the window: at `target`, and, when
/// `snap` is an edge, hidden against that edge again.
#[derive(Clone, Copy, Debug, PartialEq, Eq, Structural)]
pub struct CollapsePlan {
    pub target: WindowBounds,
    pub snap: SnapState,
}

/// How a drag ended: whether the window moved, and the edge it was docked
/// against when the drag began.
#[derive(Clone, Copy, Debug, PartialEq, Eq, Structural)]
pub struct DragEnd {
    pub moved: bool,
    pub snap: Option<SnapState>,
}

/// The state the floating window's commands and watchers share.
#[derive(Clone, Copy, Debug)]
pub struct RuntimeState {
    /// Where the collapsed window was before the panel expanded.
    pub collapse_restore_bounds: Option<WindowBounds>,
    /// The edge the collapsed window was docked against before the panel expanded.
    pub collapse_restore_snap_state: SnapState,
    /// Where the expanded panel was put, to tell later whether it was moved.
    pub expanded_anchor_position: Option<(i32, i32)>,
    /// The edge the window is docked against.
    pub current_snap_state: SnapState,
    /// The docked window is hidden past its edge.
    pub is_snapped_hidden: bool,
    /// The x coordinate a window docked against the top or bottom edge keeps.
    pub snapped_x: i32,
    /// The y coordinate a window docked against the left or right edge keeps.
    pub snapped_y: i32,
    /// The cursor has left the hidden window's edge since it was hidden,
    /// so coming back reveals it.
    pub snap_reveal_armed: bool,
    /// The window position when the current drag began.
    pub drag_anchor: Option<(i32, i32)>,
    /// The edge the window was docked against when the current drag began.
    pub drag_snap_state: Option<SnapState>,
    /// The current drag has moved the window.
    pub drag_has_moved: bool,
    pub drag_poller_started: bool,
    pub snap_poller_started: bool,
    pub everything_runtime_started: bool,
}

/// Where the collapsed window goes back to when the panel collapses: its
/// bounds `b`, or, when it was docked against edge `s`, a `c` x `c` window
/// shown against that edge.
pub open spec fn restore_point(b: WindowBounds, s: SnapState, c: u32, w: WorkArea) -> WindowBounds {
    if s == SnapState::Free {
        b
    } else {
        WindowBounds {
            x: geometry::visible_x(b, s, c, w) as i32,
            y: geometry::visible_y(b, s, c, w) as i32,
            width: c,
            height: c,
        }
    }
}

impl RuntimeState {
    /// The state's own consistency: a hidden window is docked; a docked
    /// window is either hidden or shown with the watcher armed to hide it
    /// again; a drag in progress knows the edge it began at.
    pub open spec fn wf(self) -> bool {
        &&& self.is_snapped_hidden ==> self.current_snap_state != SnapState::Free
        &&& self.current_snap_state != SnapState::Free ==> (self.is_snapped_hidden
            || self.snap_reveal_armed)
        &&& self.drag_anchor is Some ==> self.drag_snap_state is Some
    }

    pub open spec fn initial() -> RuntimeState {
        RuntimeState {
            collapse_restore_bounds: None,
            collapse_restore_snap_state: SnapState::Free,
            expanded_anchor_position: None,
            current_snap_state: SnapState::Free,
            is_snapped_hidden: false,
            snapped_x: 0,
            snapped_y: 0,
            snap_reveal_armed: false,
            drag_anchor: None,
            drag_snap_state: None,
            drag_has_moved: false,
            drag_poller_started: false,
            snap_poller_started: false,
            everything_runtime_started: false,
        }
    }

    /// The state of a freshly started application.
    pub fn new() -> (r: RuntimeState)
        ensures
            r == RuntimeState::initial(),
            r.wf(),
    {
        RuntimeState {
            collapse_restore_bounds: None,
            collapse_restore_snap_state: SnapState::Free,
            expanded_anchor_position: None,
            current_snap_state: SnapState::Free,
            is_snapped_hidden: false,
            snapped_x: 0,
            snapped_y: 0,
            snap_reveal_armed: false,
            drag_anchor: None,
            drag_snap_state: None,
            drag_has_moved: false,
            drag_poller_started: false,
            snap_poller_started: false,
            everything_runtime_started: false,
        }
    }

    /// After a window released far from every edge: not docked.
    pub open spec fn released(self) -> RuntimeState {
        RuntimeState {
            current_snap_state: SnapState::Free,
            is_snapped_hidden: false,
            collapse_restore_snap_state: SnapState::Free,
            ..self
        }
    }

    pub fn release_snap(&mut self)
        requires
            old(self).wf(),
        ensures
            *final(self) == old(self).released(),
            final(self).wf(),
    {
        self.current_snap_state = SnapState::Free;
        self.is_snapped_hidden = false;
        self.collapse_restore_snap_state = SnapState::Free;
    }

    /// After the window was docked against `snap` at `target` and hidden:
    /// it remembers its coordinate along the edge and waits for the cursor to leave.
    pub open spec fn docked_hidden(self, snap: SnapState, target: WindowBounds) -> RuntimeState {
        RuntimeState {
            current_snap_state: snap,
            is_snapped_hidden: true,
            snap_reveal_armed: false,
            snapped_y: if snap == SnapState::Left || snap == SnapState::Right {
                target.y
            } else {
                self.snapped_y
            },
            snapped_x: if snap == SnapState::Top || snap == SnapState::Bottom {
                target.x
            } else {
                self.snapped_x
            },
            ..self
        }
    }

    pub fn record_hidden_snap(&mut self, snap: SnapState, target: WindowBounds)
        requires
            old(self).wf(),
            snap != SnapState::Free,
        ensures
            *final(self) == old(self).docked_hidden(snap, target),
            final(self).wf(),
    {
        self.current_snap_state = snap;
        self.is_snapped_hidden = true;
        self.snap_reveal_armed = false;
        match snap {
            SnapState::Left | SnapState::Right => self.snapped_y = target.y,
            SnapState::Top | SnapState::Bottom => self.snapped_x = target.x,
            SnapState::Free => {},
        }
    }

    /// What the snap watcher reads: nothing while the window is not docked
    /// or is being dragged.
    pub open spec fn watch_view(self) -> Option<SnapWatch> {
        if self.current_snap_state == SnapState::Free || self.drag_anchor is Some {
            None
        } else {
            Some(
                SnapWatch {
                    snap_state: self.current_snap_state,
                    is_hidden: self.is_snapped_hidden,
                    snapped_x: self.snapped_x,
                    snapped_y: self.snapped_y,
                    reveal_armed: self.snap_reveal_armed,
                },
            )
        }
    }

    pub fn watch(&self) -> (r: Option<SnapWatch>)
        ensures
            r == self.watch_view(),
            r matches Some(v) ==> v.snap_state != SnapState::Free,
    {
        if !self.current_snap_state.is_snapped() || self.drag_anchor.is_some() {
            None
        } else {
            Some(
                SnapWatch {
                    snap_state: self.current_snap_state,
                    is_hidden: self.is_snapped_hidden,
                    snapped_x: self.snapped_x,
                    snapped_y: self.snapped_y,
                    reveal_armed: self.snap_reveal_armed,
                },
            )
        }
    }

    /// After the watcher saw the cursor leave the hidden window docked at `snap`.
    pub open spec fn armed(self, snap: SnapState) -> RuntimeState {
        if self.current_snap_state == snap && self.is_snapped_hidden {
            RuntimeState { snap_reveal_armed: true, ..self }
        } else {
            self
        }
    }

    pub fn arm_reveal(&mut self, snap: SnapState)
        requires
            old(self).wf(),
        ensures
            *final(self) == old(self).armed(snap),
            final(self).wf(),
    {
        if self.current_snap_state == snap && self.is_snapped_hidden {
            self.snap_reveal_armed = true;
        }
    }

    /// After the watcher revealed the window docked at `snap`.
    pub open spec fn revealed(self, snap: SnapState) -> RuntimeState {
        if self.current_snap_state == snap {
            RuntimeState { is_snapped_hidden: false, snap_reveal_armed: true, ..self }
        } else {
            self
        }
    }

    pub fn finish_reveal(&mut self, snap: SnapState)
        requires
            old(self).wf(),
        ensures
            *final(self) == old(self).revealed(snap),
            final(self).wf(),
    {
        if self.current_snap_state == snap {
            self.is_snapped_hidden = false;
            self.snap_reveal_armed = true;
        }
    }

    /// After the watcher hid the window docked at `snap` again.
    pub open spec fn concealed(self, snap: SnapState) -> RuntimeState {
        if self.current_snap_state == snap {
            RuntimeState { is_snapped_hidden: true, snap_reveal_armed: false, ..self }
        } else {
            self
        }
    }

    pub fn finish_conceal(&mut self, snap: SnapState)
        requires
            old(self).wf(),
            snap != SnapState::Free,
        ensures
            *final(self) == old(self).concealed(snap),
            final(self).wf(),
    {
        if self.current_snap_state == snap {
            self.is_snapped_hidden = true;
            self.snap_reveal_armed = false;
        }
    }

    /// The coordinates expanding from bounds `b` computes fit in an `i32`,
    /// and a docked window fits between the margins along its edge.
    pub open spec fn expand_fits(self, b: WindowBounds, w: WorkArea, panel_w: u32, panel_h: u32, c: u32) -> bool {
        let s = self.current_snap_state;
        let r = restore_point(b, s, c, w);
        &&& geometry::visible_fits(b, s, c, c, w)
        &&& geometry::expanded_fits(r.x as int, w.x as int, w.width, panel_w)
        &&& geometry::expanded_fits(r.y as int, w.y as int, w.height, panel_h)
    }

    /// Whether expanding from bounds `b` can place the panel (see `expand_fits`).
    pub fn expand_in_range(&self, b: WindowBounds, w: WorkArea, panel_w: u32, panel_h: u32, c: u32) -> (r: bool)
        ensures
            r == self.expand_fits(b, w, panel_w, panel_h, c),
    {
        let s = self.current_snap_state;
        if !visible_in_range(b, s, c, c, w) {
            return false;
        }
        let restore = match visible_bounds_for_snap(b, s, c, c, w.x, w.y, w.width, w.height) {
            Some(v) => v,
            None => b,
        };
        expanded_in_range(restore.x, w.x, w.width, panel_w) && expanded_in_range(
            restore.y,
            w.y,
            w.height,
            panel_h,
        )
    }

    /// The state after the collapsed window at `b` (of collapsed size `c`)
    /// expands into a `panel_w` x `panel_h` panel, and the panel's bounds.
    pub open spec fn expanded(self, b: WindowBounds, w: WorkArea, panel_w: u32, panel_h: u32, c: u32) -> (RuntimeState, WindowBounds) {
        let s = self.current_snap_state;
        let r = restore_point(b, s, c, w);
        let x = geometry::expanded_coord(r.x as int, w.x as int, w.width, panel_w);
        let y = geometry::expanded_coord(r.y as int, w.y as int, w.height, panel_h);
        (
            RuntimeState {
                collapse_restore_bounds: Some(r),
                collapse_restore_snap_state: s,
                current_snap_state: SnapState::Free,
                is_snapped_hidden: false,
                snap_reveal_armed: true,
                expanded_anchor_position: Some((x as i32, y as i32)),
                ..self
            },
            WindowBounds {
                x: x as i32,
                y: y as i32,
                width: panel_w,
                height: if panel_h >= b.height {
                    panel_h
                } else {
                    b.height
                },
            },
        )
    }

    /// Expands the collapsed window at `b` into the search panel: remembers
    /// where (and against which edge) the window was, and returns the panel's
    /// bounds inside the work area's margins.
    pub fn begin_expand(&mut self, b: WindowBounds, w: WorkArea, panel_w: u32, panel_h: u32, c: u32) -> (r: WindowBounds)
        requires
            old(self).wf(),
            old(self).expand_fits(b, w, panel_w, panel_h, c),
        ensures
            (*final(self), r) == old(self).expanded(b, w, panel_w, panel_h, c),
            final(self).wf(),
    {
        let s = self.current_snap_state;
        let restore = match visible_bounds_for_snap(b, s, c, c, w.x, w.y, w.width, w.height) {
            Some(v) => v,
            None => b,
        };
        self.collapse_restore_bounds = Some(restore);
        self.collapse_restore_snap_state = s;
        self.current_snap_state = SnapState::Free;
        self.is_snapped_hidden = false;
        self.snap_reveal_armed = true;
        let panel = expanded_bounds(restore, w, panel_w, panel_h, b.height);
        self.expanded_anchor_position = Some((panel.x, panel.y));
        panel
    }

    /// The state after the panel, now at `current`, collapses to a `c` x `c`
    /// window, and where the window goes.
    pub open spec fn collapsed(self, current: WindowBounds, c: u32) -> (RuntimeState, CollapsePlan) {
        let moved = match self.expanded_anchor_position {
            Some(p) => current.x != p.0 || current.y != p.1,
            None => false,
        };
        let base = if moved {
            current
        } else {
            match self.collapse_restore_bounds {
                Some(r) => r,
                None => current,
            }
        };
        let rs = self.collapse_restore_snap_state;
        (
            RuntimeState {
                expanded_anchor_position: None,
                collapse_restore_bounds: None,
                collapse_restore_snap_state: SnapState::Free,
                current_snap_state: SnapState::Free,
                is_snapped_hidden: false,
                snap_reveal_armed: true,
                ..self
            },
            CollapsePlan {
                target: WindowBounds { x: base.x, y: base.y, width: c, height: c },
                snap: if !moved && rs != SnapState::Free {
                    rs
                } else {
                    SnapState::Free
                },
            },
        )
    }

    /// Collapses the panel now at `current`: back to where the window was
    /// before it expanded (docked and hidden again if it was), unless the
    /// panel was moved, in which case the window stays where the panel is.
    pub fn begin_collapse(&mut self, current: WindowBounds, c: u32) -> (r: CollapsePlan)
        requires
            old(self).wf(),
        ensures
            (*final(self), r) == old(self).collapsed(current, c),
            final(self).wf(),
    {
        let anchor = self.expanded_anchor_position.take();
        let restore = self.collapse_restore_bounds.take();
        let rs = self.collapse_restore_snap_state;
        self.collapse_restore_snap_state = SnapState::Free;
        self.current_snap_state = SnapState::Free;
        self.is_snapped_hidden = false;
        self.snap_reveal_armed = true;
        let moved = match anchor {
            Some(p) => current.x != p.0 || current.y != p.1,
            None => false,
        };
        let base = if moved {
            current
        } else {
            match restore {
                Some(r) => r,
                None => current,
            }
        };
        let snap = if !moved && rs.is_snapped() {
            rs
        } else {
            SnapState::Free
        };
        CollapsePlan { target: WindowBounds { x: base.x, y: base.y, width: c, height: c }, snap }
    }

    /// The state after a drag command claimed the snap watcher.
    pub open spec fn poller_claimed(self) -> RuntimeState {
        RuntimeState { snap_poller_started: true, ..self }
    }

    /// Reads the edge the window is docked against and claims the snap
    /// watcher; the second value tells whether it still has to be started.
    pub fn claim_snap_poller(&mut self) -> (r: (SnapState, bool))
        requires
            old(self).wf(),
        ensures
            *final(self) == old(self).poller_claimed(),
            r.0 == old(self).current_snap_state,
            r.1 == !old(self).snap_poller_started,
            final(self).wf(),
    {
        let snap = self.current_snap_state;
        let start = !self.snap_poller_started;
        self.snap_poller_started = true;
        (snap, start)
    }

    /// The state after a drag began with the window shown at `(x, y)` while
    /// docked against `snap`.
    pub open spec fn dragging(self, snap: SnapState, x: i32, y: i32) -> RuntimeState {
        RuntimeState {
            is_snapped_hidden: false,
            snap_reveal_armed: true,
            drag_snap_state: Some(snap),
            drag_anchor: Some((x, y)),
            drag_has_moved: false,
            drag_poller_started: true,
            ..self
        }
    }

    /// Begins a drag; the result tells whether the drag watcher still has to be started.
    pub fn begin_drag(&mut self, snap: SnapState, x: i32, y: i32) -> (r: bool)
        requires
            old(self).wf(),
        ensures
            *final(self) == old(self).dragging(snap, x, y),
            r == !old(self).drag_poller_started,
            final(self).wf(),
    {
        self.is_snapped_hidden = false;
        self.snap_reveal_armed = true;
        self.drag_snap_state = Some(snap);
        self.drag_anchor = Some((x, y));
        self.drag_has_moved = false;
        let start = !self.drag_poller_started;
        self.drag_poller_started = true;
        start
    }

    /// After the drag watcher moved the window.
    pub open spec fn drag_moved(self) -> RuntimeState {
        RuntimeState { drag_has_moved: true, ..self }
    }

    pub fn note_drag_moved(&mut self)
        requires
            old(self).wf(),
        ensures
            *final(self) == old(self).drag_moved(),
            final(self).wf(),
    {
        self.drag_has_moved = true;
    }

    /// The state after a drag ended, and how it ended. A drag that did not
    /// move the window leaves it docked as it was, hidden when docked.
    pub open spec fn drag_finished(self) -> (RuntimeState, DragEnd) {
        let moved = self.drag_has_moved;
        let snap = self.drag_snap_state;
        let after = RuntimeState {
            drag_anchor: None,
            drag_has_moved: false,
            drag_snap_state: None,
            ..self
        };
        let current = match snap {
            Some(s) => s,
            None => SnapState::Free,
        };
        (
            if moved {
                after
            } else {
                RuntimeState {
                    current_snap_state: current,
                    is_snapped_hidden: current != SnapState::Free,
                    snap_reveal_armed: current == SnapState::Free,
                    ..after
                }
            },
            DragEnd { moved, snap },
        )
    }

    pub fn finish_drag(&mut self) -> (r: DragEnd)
        requires
            old(self).wf(),
        ensures
            (*final(self), r) == old(self).drag_finished(),
            final(self).wf(),
    {
        self.drag_anchor = None;
        let moved = self.drag_has_moved;
        self.drag_has_moved = false;
        let snap = self.drag_snap_state.take();
        if !moved {
            self.current_snap_state = match snap {
                Some(s) => s,
                None => SnapState::Free,
            };
            self.is_snapped_hidden = self.current_snap_state.is_snapped();
            self.snap_reveal_armed = !self.current_snap_state.is_snapped();
        }
        DragEnd { moved, snap }
    }

    /// After the bundled Everything engine was started.
    pub open spec fn everything_started(self) -> RuntimeState {
        RuntimeState { everything_runtime_started: true, ..self }
    }

    pub fn mark_everything_started(&mut self)
        requires
            old(self).wf(),
        ensures
            *final(self) == old(self).everything_started(),
            final(self).wf(),
    {
        self.everything_runtime_started = true;
    }
}


/// Revealing a hidden docked window puts it back exactly where it was
/// docked, and hiding it again puts it exactly where it was hidden: for a
/// window docked against `s` at `target` and now at `now` (any position,
/// same size), the watcher's reveal and conceal positions are the docked
/// and hidden positions of `target`.
pub proof fn lemma_reveal_returns_to_dock(st: RuntimeState, s: SnapState, target: WindowBounds, now: WindowBounds, w: WorkArea)
    requires
        s != SnapState::Free,
        target.x == geometry::docked_x(target, s, w),
        target.y == geometry::docked_y(target, s, w),
        now.width == target.width,
        now.height == target.height,
    ensures
        ({
            let st2 = st.docked_hidden(s, target);
            let a = anchored(now, s, st2.snapped_x, st2.snapped_y);
            &&& geometry::docked_x(a, s, w) == target.x
            &&& geometry::docked_y(a, s, w) == target.y
            &&& geometry::hidden_x(a, s, w) == geometry::hidden_x(target, s, w)
            &&& geometry::hidden_y(a, s, w) == geometry::hidden_y(target, s, w)
        }),
{
}

/// A hidden docked window keeps exactly `SNAP_REVEAL_SIZE` pixels inside the
/// work area, across the edge it is docked against.
pub proof fn lemma_hidden_strip(b: WindowBounds, s: SnapState, w: WorkArea)
    requires
        s != SnapState::Free,
    ensures
        s == SnapState::Left ==> geometry::hidden_x(b, s, w) + geometry::signed(b.width) - w.x
            == geometry::SNAP_REVEAL_SIZE,
        s == SnapState::Right ==> w.x + geometry::signed(w.width) - geometry::hidden_x(b, s, w)
            == geometry::SNAP_REVEAL_SIZE,
        s == SnapState::Top ==> geometry::hidden_y(b, s, w) + geometry::signed(b.height) - w.y
            == geometry::SNAP_REVEAL_SIZE,
        s == SnapState::Bottom ==> w.y + geometry::signed(w.height) - geometry::hidden_y(b, s, w)
            == geometry::SNAP_REVEAL_SIZE,
{
}

/// A window that has just been docked and hidden is not revealed before
/// the cursor has left its edge, wherever the cursor is.
pub proof fn lemma_fresh_dock_waits_for_cursor(st: RuntimeState, s: SnapState, target: WindowBounds, m: CursorPosition, w: WorkArea, b: WindowBounds)
    requires
        s != SnapState::Free,
        st.drag_anchor is None,
    ensures
        ({
            let st2 = st.docked_hidden(s, target);
            &&& st2.watch_view() is Some
            &&& !(snap_poll_plan(st2.watch_view()->0, m, w, b) is Reveal)
        }),
{
}

/// Expanding the collapsed window and collapsing the panel again without
/// moving it puts the window back where it was: at its own position when
/// it was not docked, else shown against its edge and then hidden there again.
pub proof fn lemma_expand_then_collapse(st: RuntimeState, b: WindowBounds, w: WorkArea, panel_w: u32, panel_h: u32, c: u32, current: WindowBounds)
    requires
        st.wf(),
        st.expand_fits(b, w, panel_w, panel_h, c),
        current.x == st.expanded(b, w, panel_w, panel_h, c).1.x,
        current.y == st.expanded(b, w, panel_w, panel_h, c).1.y,
    ensures
        ({
            let s = st.current_snap_state;
            let st1 = st.expanded(b, w, panel_w, panel_h, c).0;
            let plan = st1.collapsed(current, c).1;
            let r = restore_point(b, s, c, w);
            &&& plan.snap == s
            &&& plan.target == (WindowBounds { x: r.x, y: r.y, width: c, height: c })
            &&& s == SnapState::Free ==> plan.target.x == b.x && plan.target.y == b.y
        }),
{
}

/// A drag that never moved the window leaves it docked against the edge
/// it was docked against before, hidden when docked.
pub proof fn lemma_click_keeps_dock(st: RuntimeState, x: i32, y: i32)
    requires
        st.wf(),
    ensures
        ({
            let snap = st.current_snap_state;
            let st1 = st.poller_claimed().dragging(snap, x, y);
            let (st2, end) = st1.drag_finished();
            &&& !end.moved
            &&& end.snap == Some(snap)
            &&& st2.current_snap_state == snap
            &&& st2.is_snapped_hidden == (snap != SnapState::Free)
            &&& st2.drag_anchor is None
        }),
{
}

/// The snap watcher, for a window docked against edge `s`, by the cursor's
/// distance to that edge (measured into the screen): an armed hidden window
/// is revealed exactly when the cursor is within `SNAP_SHOW_THRESHOLD` of
/// the edge; a hidden window not yet armed is armed exactly when the cursor
/// is farther than `SNAP_HIDE_THRESHOLD` from it; a shown window is hidden
/// exactly when the cursor is that far. A cursor at the opposite border of
/// a wide work area (its whole pixels in order) never reveals the window.
pub proof fn lemma_watcher_follows_the_edge_distance(v: SnapWatch, m: CursorPosition, w: WorkArea, b: WindowBounds)
    requires
        v.snap_state != SnapState::Free,
    ensures
        ({
            let s = v.snap_state;
            let right = w.x + geometry::signed(w.width);
            let bottom = w.y + geometry::signed(w.height);
            // the cursor is within `t` of the edge (its pixel bounds decide it exactly)
            let within = |t: int|
                match s {
                    SnapState::Left => m.x.ceil - w.x <= t,
                    SnapState::Right => right - m.x.floor <= t,
                    SnapState::Top => m.y.ceil - w.y <= t,
                    _ => bottom - m.y.floor <= t,
                };
            // the cursor is farther than `t` from the edge
            let beyond = |t: int|
                match s {
                    SnapState::Left => m.x.ceil - w.x > t,
                    SnapState::Right => right - m.x.floor > t,
                    SnapState::Top => m.y.ceil - w.y > t,
                    _ => bottom - m.y.floor > t,
                };
            let plan = snap_poll_plan(v, m, w, b);
            &&& v.is_hidden && v.reveal_armed ==> ((plan is Reveal) <==> within(
                geometry::SNAP_SHOW_THRESHOLD as int,
            ))
            &&& v.is_hidden && !v.reveal_armed ==> ((plan is ArmReveal) <==> beyond(
                geometry::SNAP_HIDE_THRESHOLD as int,
            ))
            &&& v.is_hidden && !v.reveal_armed ==> !(plan is Reveal)
            &&& !v.is_hidden ==> ((plan is Conceal) <==> beyond(geometry::SNAP_HIDE_THRESHOLD as int))
            &&& !v.is_hidden ==> !(plan is Reveal)
            &&& s == SnapState::Right && m.x.floor <= m.x.ceil && m.x.ceil <= w.x + geometry::SNAP_SHOW_THRESHOLD
                && geometry::signed(w.width) > 2 * geometry::SNAP_SHOW_THRESHOLD ==> !(plan is Reveal)
            &&& s == SnapState::Left && m.x.floor <= m.x.ceil && m.x.floor >= right - geometry::SNAP_SHOW_THRESHOLD
                && geometry::signed(w.width) > 2 * geometry::SNAP_SHOW_THRESHOLD ==> !(plan is Reveal)
        }),
{
}

/// Collapsing a panel that was moved after it expanded (either coordinate
/// differs from where it was put) leaves the ball where the panel now is,
/// at the collapsed size, and does not dock it again; a panel left where
/// it was put goes back to the remembered bounds and edge.
pub proof fn lemma_moved_panel_collapses_in_place(st: RuntimeState, current: WindowBounds, c: u32)
    requires
        st.expanded_anchor_position is Some,
    ensures
        ({
            let p = st.expanded_anchor_position->0;
            let plan = st.collapsed(current, c).1;
            &&& (current.x != p.0 || current.y != p.1) ==> plan == (CollapsePlan {
                target: WindowBounds { x: current.x, y: current.y, width: c, height: c },
                snap: SnapState::Free,
            })
            &&& (current.x == p.0 && current.y == p.1) ==> plan.snap == st.collapse_restore_snap_state
            &&& (current.x == p.0 && current.y == p.1 && st.collapse_restore_bounds is Some) ==> {
                &&& plan.target.x == st.collapse_restore_bounds->0.x
                &&& plan.target.y == st.collapse_restore_bounds->0.y
            }
            &&& plan.target.width == c && plan.target.height == c
        }),
{
}

} // verus!
