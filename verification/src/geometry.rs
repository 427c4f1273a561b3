//! Monitor geometry: the taskbar-height probe computation and the
//! bottom-right anchored placement of the popup window.

use vstd::prelude::*;

verus! {

/// Width of the popup window, in logical units.
pub const WINDOW_WIDTH: u32 = 440;

/// Height of the popup window, in logical units.
pub const WINDOW_HEIGHT: u32 = 700;

/// Margin kept between the popup window and the screen edges, and between
/// the window and the taskbar.
pub const SCREEN_MARGIN: u32 = 10;

/// Geometry of the primary monitor as the positioning code needs it: the
/// monitor's full size and the taskbar thickness inferred by the probe.
#[derive(Clone, Copy, Debug, PartialEq, Eq, Structural)]
pub struct MonitorGeometry {
    pub width: u32,
    pub height: u32,
    /// Vertical space reserved by the OS shell. Inferred as a difference of
    /// two reported heights, so it can be negative when a maximized window
    /// reports a height above the monitor's.
    pub taskbar_height: i64,
}

/// A window position in logical units, measured from the top-left screen
/// corner. Either coordinate can be negative when the monitor is smaller
/// than the window.
#[derive(Clone, Copy, Debug, PartialEq, Eq, Structural)]
pub struct Position {
    pub x: i64,
    pub y: i64,
}

impl MonitorGeometry {
    /// The taskbar height always comes out of `from_probe`, so it is bounded
    /// by the two `u32` heights it was diffed from.
    pub open spec fn wf(self) -> bool {
        -(u32::MAX as int) <= self.taskbar_height <= self.height
    }

    /// Packages what the probe measured: the monitor's reported size and the
    /// inner height of the maximized probe window.
    pub fn from_probe(width: u32, height: u32, probe_window_height: u32) -> (g: MonitorGeometry)
        ensures
            g.width == width,
            g.height == height,
            g.taskbar_height == taskbar_height(height, probe_window_height),
            g.wf(),
    {
        MonitorGeometry { width, height, taskbar_height: measure_taskbar_height(height, probe_window_height) }
    }
}

/// What the probe computes: the monitor's full height minus the height the
/// maximized, undecorated probe window reported.
pub open spec fn taskbar_height(monitor_height: u32, probe_window_height: u32) -> int {
    monitor_height - probe_window_height
}

/// Taskbar thickness from the probe's two measurements. Non-negative for any
/// monitor at least as tall as the probe window.
pub fn measure_taskbar_height(monitor_height: u32, probe_window_height: u32) -> (h: i64)
    ensures
        h == taskbar_height(monitor_height, probe_window_height),
        probe_window_height <= monitor_height ==> h >= 0,
{
    monitor_height as i64 - probe_window_height as i64
}

/// Bottom-right anchored placement: the popup window sits `SCREEN_MARGIN`
/// units from the right screen edge and `SCREEN_MARGIN` units above the
/// inferred taskbar.
pub fn popup_position(monitor: MonitorGeometry) -> (p: Position)
    requires
        monitor.wf(),
    ensures
        p.x + WINDOW_WIDTH + SCREEN_MARGIN == monitor.width,
        p.y + WINDOW_HEIGHT + SCREEN_MARGIN == monitor.height - monitor.taskbar_height,
{
    let x: i64 = monitor.width as i64 - WINDOW_WIDTH as i64 - SCREEN_MARGIN as i64;
    let y: i64 = monitor.height as i64 - monitor.taskbar_height - WINDOW_HEIGHT as i64
        - SCREEN_MARGIN as i64;
    Position { x, y }
}

} // verus!
