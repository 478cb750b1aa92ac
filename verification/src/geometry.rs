//! Rectangles on the screen: whether a point lies over the taskbar's part of
//! a monitor, and whether the foreground window fills the monitor of a point.

use vstd::prelude::*;

verus! {

/// A screen rectangle; `right` and `bottom` lie just outside it.
#[derive(Clone, Copy)]
pub struct Rect {
    pub left: i32,
    pub top: i32,
    pub right: i32,
    pub bottom: i32,
}

/// The point lies inside the rectangle.
pub open spec fn rect_holds(rect: Rect, x: int, y: int) -> bool {
    x >= rect.left && x < rect.right && y >= rect.top && y < rect.bottom
}

/// The window reaches every edge of the monitor, or comes within
/// `tolerance` of it.
pub open spec fn rect_reaches(window: Rect, monitor: Rect, tolerance: int) -> bool {
    &&& window.left <= monitor.left + tolerance
    &&& window.top <= monitor.top + tolerance
    &&& window.right >= monitor.right - tolerance
    &&& window.bottom >= monitor.bottom - tolerance
}

/// The monitor's edges, moved by `tolerance`, are still `i32` values.
pub open spec fn margins_fit(monitor: Rect, tolerance: int) -> bool {
    &&& i32::MIN <= monitor.left + tolerance <= i32::MAX
    &&& i32::MIN <= monitor.top + tolerance <= i32::MAX
    &&& i32::MIN <= monitor.right - tolerance <= i32::MAX
    &&& i32::MIN <= monitor.bottom - tolerance <= i32::MAX
}

/// How far from a monitor's edges a window may stay and still count as
/// filling it.
pub const FULLSCREEN_TOLERANCE: i32 = 2;

/// Whether the point lies inside the rectangle.
pub fn contains_rect_point(rect: &Rect, point_x: i32, point_y: i32) -> (inside: bool)
    ensures
        inside == rect_holds(*rect, point_x as int, point_y as int),
{
    point_x >= rect.left && point_x < rect.right && point_y >= rect.top && point_y < rect.bottom
}

/// Whether the point lies on the monitor but outside its work area, that is
/// on the part of the monitor that the taskbar takes.
pub fn is_in_taskbar_work_area(monitor: &Rect, work_area: &Rect, point_x: i32, point_y: i32) -> (in_taskbar: bool)
    ensures
        in_taskbar == (rect_holds(*monitor, point_x as int, point_y as int) && !rect_holds(
            *work_area,
            point_x as int,
            point_y as int,
        )),
{
    contains_rect_point(monitor, point_x, point_y) && !contains_rect_point(
        work_area,
        point_x,
        point_y,
    )
}

/// Whether the window reaches every edge of the monitor, within `tolerance`.
pub fn rect_covers(window: &Rect, monitor: &Rect, tolerance: i32) -> (covers: bool)
    requires
        margins_fit(*monitor, tolerance as int),
    ensures
        covers == rect_reaches(*window, *monitor, tolerance as int),
{
    window.left <= monitor.left + tolerance && window.top <= monitor.top + tolerance
        && window.right >= monitor.right - tolerance && window.bottom >= monitor.bottom
        - tolerance
}

/// What the system reports about the foreground window and the monitor
/// under a point.
pub struct ForegroundProbe {
    /// There is a foreground window and it is visible.
    pub foreground_visible: bool,
    /// The monitor nearest the point, if there is one.
    pub point_monitor: Option<usize>,
    /// The monitor that the foreground window is on, if it is on one.
    pub foreground_monitor: Option<usize>,
    /// The bounds of the point's monitor, if they could be read.
    pub monitor_rect: Option<Rect>,
    /// The bounds of the foreground window, if they could be read.
    pub window_rect: Option<Rect>,
}

/// Whether a visible foreground window fills the monitor that the point is
/// on: both monitors are known and the same, both bounds could be read, and
/// the window reaches every edge of the monitor within the tolerance.
pub fn fullscreen_app_active_on_point(probe: &ForegroundProbe) -> (fullscreen: bool)
    requires
        probe.monitor_rect matches Some(monitor) ==> margins_fit(
            monitor,
            FULLSCREEN_TOLERANCE as int,
        ),
    ensures
        fullscreen == {
            &&& probe.foreground_visible
            &&& probe.point_monitor is Some
            &&& probe.point_monitor == probe.foreground_monitor
            &&& probe.monitor_rect is Some
            &&& probe.window_rect is Some
            &&& rect_reaches(
                probe.window_rect.unwrap(),
                probe.monitor_rect.unwrap(),
                FULLSCREEN_TOLERANCE as int,
            )
        },
{
    if !probe.foreground_visible {
        return false;
    }
    let same_monitor = match (probe.point_monitor, probe.foreground_monitor) {
        (Some(point_monitor), Some(foreground_monitor)) => point_monitor == foreground_monitor,
        _ => false,
    };
    if !same_monitor {
        return false;
    }
    match (&probe.monitor_rect, &probe.window_rect) {
        (Some(monitor), Some(window)) => rect_covers(window, monitor, FULLSCREEN_TOLERANCE),
        _ => false,
    }
}

/// A window always covers itself, at any tolerance that is not negative.
pub proof fn lemma_rect_covers_itself(rect: Rect, tolerance: int)
    requires
        tolerance >= 0,
    ensures
        rect_reaches(rect, rect, tolerance),
{
}

/// A window that covers a monitor at some tolerance covers it at any
/// larger tolerance too.
pub proof fn lemma_rect_covers_monotone(window: Rect, monitor: Rect, tolerance: int, larger: int)
    requires
        tolerance <= larger,
        rect_reaches(window, monitor, tolerance),
    ensures
        rect_reaches(window, monitor, larger),
{
}

/// A point outside any one of the four bounds of a rectangle is outside it;
/// a point within all four is inside it.
pub proof fn lemma_rect_holds_bounds(rect: Rect, x: int, y: int)
    ensures
        x < rect.left ==> !rect_holds(rect, x, y),
        x >= rect.right ==> !rect_holds(rect, x, y),
        y < rect.top ==> !rect_holds(rect, x, y),
        y >= rect.bottom ==> !rect_holds(rect, x, y),
        rect.left <= x < rect.right && rect.top <= y < rect.bottom ==> rect_holds(rect, x, y),
{
}

/// A point on the monitor that lies above, below, left or right of the work
/// area is on the taskbar's part of the monitor.
pub proof fn lemma_taskbar_beside_work_area(monitor: Rect, work_area: Rect, x: int, y: int)
    requires
        monitor.left <= x < monitor.right,
        monitor.top <= y < monitor.bottom,
        y < work_area.top || y >= work_area.bottom || x < work_area.left || x >= work_area.right,
    ensures
        rect_holds(monitor, x, y) && !rect_holds(work_area, x, y),
{
}

/// A window covers a monitor only if each of its four edges comes within the
/// tolerance of the monitor's; a single edge that misses by more rules it
/// out, and four edges within the tolerance make it cover.
pub proof fn lemma_rect_covers_each_edge(window: Rect, monitor: Rect, tolerance: int)
    ensures
        window.left > monitor.left + tolerance ==> !rect_reaches(window, monitor, tolerance),
        window.top > monitor.top + tolerance ==> !rect_reaches(window, monitor, tolerance),
        window.right < monitor.right - tolerance ==> !rect_reaches(window, monitor, tolerance),
        window.bottom < monitor.bottom - tolerance ==> !rect_reaches(window, monitor, tolerance),
        window.left <= monitor.left + tolerance && window.top <= monitor.top + tolerance
            && window.right >= monitor.right - tolerance && window.bottom >= monitor.bottom
            - tolerance ==> rect_reaches(window, monitor, tolerance),
{
}

} // verus!
