//! The window factory: recipes for the popup window and for the transient
//! probe window, the focus guard applied right after creation, and the
//! platform-conditional chrome styling. The toolkit builds windows from
//! these recipes; everything it is handed is pinned down here.

use vstd::prelude::*;
use crate::geometry::{
    MonitorGeometry, Position, popup_position, SCREEN_MARGIN, WINDOW_HEIGHT, WINDOW_WIDTH,
};

verus! {

/// Identifier of the singleton popup window.
pub const WINDOW_ID: &'static str = "main";

/// Identifier of the transient probe window.
pub const PROBE_WINDOW_ID: &'static str = "taskbar-check";

/// Title of the popup window.
pub const WINDOW_TITLE: &'static str = "godot-toolbox";

/// Document the probe window loads while it measures the screen.
pub const PROBE_WINDOW_URL: &'static str = "index.html";

/// The full recipe for the popup window: fixed size, no decorations, kept
/// out of the task switcher, always on top, created already focused, and
/// anchored to the bottom-right corner when monitor geometry is known.
#[derive(Clone, Copy, Debug, PartialEq, Eq)]
pub struct PopupWindowConfig {
    pub width: u32,
    pub height: u32,
    pub closable: bool,
    pub fullscreen: bool,
    pub minimizable: bool,
    pub maximizable: bool,
    pub decorations: bool,
    pub skip_taskbar: bool,
    pub always_on_top: bool,
    pub focused: bool,
    /// `None` leaves placement to the toolkit's default.
    pub position: Option<Position>,
}

/// Build the recipe for the popup window. This succeeds for every input:
/// with monitor geometry the window is anchored near the bottom-right
/// corner above the taskbar, without it placement falls back to the
/// toolkit's default.
pub fn popup_window_config(monitor: Option<MonitorGeometry>) -> (c: PopupWindowConfig)
    requires
        monitor matches Some(m) ==> m.wf(),
    ensures
        c.width == WINDOW_WIDTH && c.height == WINDOW_HEIGHT,
        !c.closable && !c.fullscreen && !c.minimizable && !c.maximizable,
        !c.decorations && c.skip_taskbar && c.always_on_top && c.focused,
        monitor matches Some(m) ==> (c.position matches Some(p)
            && p.x + WINDOW_WIDTH + SCREEN_MARGIN == m.width
            && p.y + WINDOW_HEIGHT + SCREEN_MARGIN == m.height - m.taskbar_height),
        monitor is None ==> c.position is None,
{
    let position = match monitor {
        Some(m) => Some(popup_position(m)),
        None => None,
    };
    PopupWindowConfig {
        width: WINDOW_WIDTH,
        height: WINDOW_HEIGHT,
        closable: false,
        fullscreen: false,
        minimizable: false,
        maximizable: false,
        decorations: false,
        skip_taskbar: true,
        always_on_top: true,
        focused: true,
        position,
    }
}

/// The recipe for the probe window: maximized so that its reported height
/// is the monitor height minus the taskbar, and otherwise as unobtrusive as
/// the toolkit allows.
#[derive(Clone, Copy, Debug, PartialEq, Eq, Structural)]
pub struct ProbeWindowConfig {
    pub maximized: bool,
    pub transparent: bool,
    pub decorations: bool,
    pub skip_taskbar: bool,
    pub visible: bool,
}

/// Build the recipe for the transient probe window.
pub fn probe_window_config() -> (c: ProbeWindowConfig)
    ensures
        c.maximized && c.transparent && !c.decorations && c.skip_taskbar && !c.visible,
{
    ProbeWindowConfig {
        maximized: true,
        transparent: true,
        decorations: false,
        skip_taskbar: true,
        visible: false,
    }
}

/// Focus guard applied right after the popup window is built: the creation
/// flags do not reliably transfer keyboard focus on every platform, so
/// focus is requested explicitly unless the toolkit positively reports the
/// window as focused. `reported_focus` is the toolkit's answer, `None` when
/// the query itself failed.
pub fn needs_focus_request(reported_focus: Option<bool>) -> (r: bool)
    ensures
        r == (reported_focus != Some(true)),
{
    match reported_focus {
        Some(true) => false,
        _ => true,
    }
}

/// Custom window chrome: a transparent title bar over a fixed accent
/// background colour, applied only where the platform supports it.
#[derive(Clone, Copy, Debug, PartialEq, Eq, Structural)]
pub struct ChromeStyle {
    pub titlebar_transparent: bool,
    pub red: u8,
    pub green: u8,
    pub blue: u8,
    pub alpha: u8,
}

/// Decide the chrome styling from the platform's capability: supporting
/// platforms get the transparent title bar with the accent colour at full
/// opacity, the rest get no styling at all.
pub fn chrome_style(supports_custom_chrome: bool) -> (s: Option<ChromeStyle>)
    ensures
        supports_custom_chrome ==> (s matches Some(c) && c.titlebar_transparent && c.red == 50
            && c.green == 158 && c.blue == 164 && c.alpha == 255),
        !supports_custom_chrome ==> s is None,
{
    if supports_custom_chrome {
        Some(
            ChromeStyle {
                titlebar_transparent: true,
                red: 50,
                green: 158,
                blue: 164,
                alpha: 255,
            },
        )
    } else {
        None
    }
}

} // verus!
