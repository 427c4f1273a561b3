//! The tray/menu dispatcher: the fixed two-entry context menu, the meaning
//! of menu identifiers and tray clicks, and the routing of both into the
//! visibility controller. Left click on the tray icon is reserved for
//! toggling the window; the context menu opens on the platform's other
//! trigger.

use vstd::prelude::*;
use crate::vis::{Controller, VisAction, VisEvent, VisState, spec_step};

verus! {

/// What a menu identifier means to the dispatcher.
#[derive(Clone, Copy, Debug, PartialEq, Eq, Structural)]
pub enum MenuCommand {
    Open,
    Quit,
    Unhandled,
}

/// Meaning of a menu identifier: only the two identifiers of the fixed menu
/// are recognized, everything else is ignored.
pub open spec fn spec_classify_menu(id: Seq<char>) -> MenuCommand {
    if id == "open"@ {
        MenuCommand::Open
    } else if id == "quit"@ {
        MenuCommand::Quit
    } else {
        MenuCommand::Unhandled
    }
}

/// Classify one menu identifier.
pub fn classify_menu_event(id: &str) -> (c: MenuCommand)
    ensures
        c == spec_classify_menu(id@),
{
    let owned: String = id.to_owned();
    let open: String = "open".to_owned();
    if owned == open {
        MenuCommand::Open
    } else {
        let quit: String = "quit".to_owned();
        if owned == quit {
            MenuCommand::Quit
        } else {
            MenuCommand::Unhandled
        }
    }
}

/// One entry of the tray context menu.
#[derive(Clone, Debug)]
pub struct MenuItemConfig {
    pub id: String,
    pub label: String,
    pub enabled: bool,
}

/// The tray icon's configuration: the fixed two-entry menu and the click
/// policy that keeps left click free for toggling the window.
#[derive(Clone, Debug)]
pub struct TrayMenuConfig {
    pub items: Vec<MenuItemConfig>,
    pub show_menu_on_left_click: bool,
}

/// Build the tray configuration: an enabled `open` entry, an enabled `quit`
/// entry, and the context menu kept off the left mouse button. Both
/// identifiers are ones the dispatcher recognizes.
pub fn tray_menu_config() -> (c: TrayMenuConfig)
    ensures
        c.items@.len() == 2,
        c.items@[0].id@ == "open"@ && c.items@[0].label@ == "Open Toolbox"@ && c.items@[0].enabled,
        c.items@[1].id@ == "quit"@ && c.items@[1].label@ == "Quit Toolbox"@ && c.items@[1].enabled,
        !c.show_menu_on_left_click,
        spec_classify_menu(c.items@[0].id@) == MenuCommand::Open,
        spec_classify_menu(c.items@[1].id@) == MenuCommand::Quit,
{
    proof {
        lemma_menu_ids_differ();
    }
    let mut items: Vec<MenuItemConfig> = Vec::new();
    items.push(
        MenuItemConfig { id: "open".to_owned(), label: "Open Toolbox".to_owned(), enabled: true },
    );
    items.push(
        MenuItemConfig { id: "quit".to_owned(), label: "Quit Toolbox".to_owned(), enabled: true },
    );
    TrayMenuConfig { items, show_menu_on_left_click: false }
}

/// Mouse button of a tray-icon click.
#[derive(Clone, Copy, Debug, PartialEq, Eq, Structural)]
pub enum TrayMouseButton {
    Left,
    Right,
    Middle,
}

/// Whether the button was pressed or released.
#[derive(Clone, Copy, Debug, PartialEq, Eq, Structural)]
pub enum TrayMouseButtonState {
    Up,
    Down,
}

/// A tray-icon event as the dispatcher sees it: a click with its button and
/// button state, or anything else.
#[derive(Clone, Copy, Debug, PartialEq, Eq, Structural)]
pub enum TrayEvent {
    Click { button: TrayMouseButton, button_state: TrayMouseButtonState },
    Other,
}

/// Only the release of a left click on the tray icon toggles the window.
pub open spec fn spec_tray_toggles(e: TrayEvent) -> bool {
    e matches TrayEvent::Click {
        button: TrayMouseButton::Left,
        button_state: TrayMouseButtonState::Up,
    }
}

/// Decide whether a tray event toggles the window.
pub fn tray_event_toggles(e: TrayEvent) -> (r: bool)
    ensures
        r == spec_tray_toggles(e),
{
    match e {
        TrayEvent::Click {
            button: TrayMouseButton::Left,
            button_state: TrayMouseButtonState::Up,
        } => true,
        _ => false,
    }
}

/// Everything the application can be told to do in response to one event.
#[derive(Clone, Copy, Debug, PartialEq, Eq, Structural)]
pub enum Reaction {
    /// Drive the popup window as the action says.
    Window(VisAction),
    /// Terminate the process with this exit code.
    Exit(i32),
    /// Log the event and do nothing.
    Ignore,
}

/// Next controller state and reaction for one menu event.
pub open spec fn spec_menu_reaction(s: VisState, id: Seq<char>) -> (VisState, Reaction) {
    match spec_classify_menu(id) {
        MenuCommand::Open => (
            spec_step(s, VisEvent::Toggle).0,
            Reaction::Window(spec_step(s, VisEvent::Toggle).1),
        ),
        MenuCommand::Quit => (s, Reaction::Exit(0)),
        MenuCommand::Unhandled => (s, Reaction::Ignore),
    }
}

/// Next controller state and reaction for one tray event.
pub open spec fn spec_tray_reaction(s: VisState, e: TrayEvent) -> (VisState, Reaction) {
    if spec_tray_toggles(e) {
        (spec_step(s, VisEvent::Toggle).0, Reaction::Window(spec_step(s, VisEvent::Toggle).1))
    } else {
        (s, Reaction::Ignore)
    }
}

/// Route one menu event: `open` toggles the window, `quit` asks for process
/// exit with code 0, anything else is ignored.
pub fn dispatch_menu_event(ctl: &mut Controller, id: &str) -> (r: Reaction)
    ensures
        (final(ctl).state, r) == spec_menu_reaction(old(ctl).state, id@),
{
    match classify_menu_event(id) {
        MenuCommand::Open => Reaction::Window(ctl.handle(VisEvent::Toggle)),
        MenuCommand::Quit => Reaction::Exit(0),
        MenuCommand::Unhandled => Reaction::Ignore,
    }
}

/// Route one tray event: a left-click release toggles the window, any other
/// tray event is ignored.
pub fn dispatch_tray_event(ctl: &mut Controller, e: TrayEvent) -> (r: Reaction)
    ensures
        (final(ctl).state, r) == spec_tray_reaction(old(ctl).state, e),
{
    if tray_event_toggles(e) {
        Reaction::Window(ctl.handle(VisEvent::Toggle))
    } else {
        Reaction::Ignore
    }
}

/// The two recognized menu identifiers are distinct, so each reaches its
/// own dispatch branch.
pub proof fn lemma_menu_ids_differ()
    ensures
        "open"@ != "quit"@,
{
    reveal_strlit("open");
    reveal_strlit("quit");
    assert("open"@[0] == 'o');
    assert("quit"@[0] == 'q');
}

/// Law: a quit menu event asks for termination with exit code 0 whatever
/// the prior visibility state, and leaves that state alone.
pub proof fn lemma_quit_always_exits(s: VisState)
    ensures
        spec_menu_reaction(s, "quit"@).1 == Reaction::Exit(0),
        spec_menu_reaction(s, "quit"@).0 == s,
{
    lemma_menu_ids_differ();
}

/// Law: an open menu event in the `Absent` state creates the window, which
/// the factory builds already visible and focused, and the controller moves
/// to `Visible`.
pub proof fn lemma_open_on_absent_creates_focused()
    ensures
        spec_menu_reaction(VisState::Absent, "open"@) == (
            VisState::Visible,
            Reaction::Window(VisAction::CreateFocused),
        ),
{
}

/// Law: a tray left-click release reacts exactly as a toggle of the
/// controller, so the alternation laws of the controller carry over to
/// sequences of tray clicks.
pub proof fn lemma_tray_click_is_toggle(s: VisState)
    ensures
        spec_tray_reaction(
            s,
            TrayEvent::Click {
                button: TrayMouseButton::Left,
                button_state: TrayMouseButtonState::Up,
            },
        ).0 == spec_step(s, VisEvent::Toggle).0,
{
}

} // verus!
