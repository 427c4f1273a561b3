use godot_toolbox::dispatch::{
    classify_menu_event, dispatch_menu_event, dispatch_tray_event, tray_event_toggles,
    tray_menu_config, MenuCommand, Reaction, TrayEvent, TrayMouseButton, TrayMouseButtonState,
};
use godot_toolbox::geometry::{
    measure_taskbar_height, popup_position, MonitorGeometry, Position, SCREEN_MARGIN,
    WINDOW_HEIGHT, WINDOW_WIDTH,
};
use godot_toolbox::vis::{step, Controller, VisAction, VisEvent, VisState};
use godot_toolbox::window::{
    chrome_style, needs_focus_request, popup_window_config, probe_window_config, PROBE_WINDOW_ID,
    PROBE_WINDOW_URL, WINDOW_ID, WINDOW_TITLE,
};

#[test]
fn constants_match_the_launcher() {
    assert_eq!(WINDOW_WIDTH, 440);
    assert_eq!(WINDOW_HEIGHT, 700);
    assert_eq!(SCREEN_MARGIN, 10);
    assert_eq!(WINDOW_ID, "main");
    assert_eq!(PROBE_WINDOW_ID, "taskbar-check");
    assert_eq!(WINDOW_TITLE, "godot-toolbox");
    assert_eq!(PROBE_WINDOW_URL, "index.html");
}

#[test]
fn taskbar_height_is_the_probe_difference() {
    assert_eq!(measure_taskbar_height(1080, 1040), 40);
    assert_eq!(measure_taskbar_height(1080, 1080), 0);
}

#[test]
fn taskbar_height_non_negative_when_monitor_tall_enough() {
    for probe in [0u32, 1, 500, 1080] {
        assert!(measure_taskbar_height(1080, probe) >= 0);
    }
}

#[test]
fn taskbar_height_can_reflect_an_overtall_probe() {
    assert_eq!(measure_taskbar_height(700, 800), -100);
}

#[test]
fn position_scenario_full_hd() {
    let monitor = MonitorGeometry::from_probe(1920, 1080, 1040);
    assert_eq!(monitor.taskbar_height, 40);
    let p = popup_position(monitor);
    assert_eq!(p, Position { x: 1470, y: 330 });
}

#[test]
fn position_keeps_the_margin_equations() {
    let monitor = MonitorGeometry::from_probe(2560, 1440, 1400);
    let p = popup_position(monitor);
    assert_eq!(p.x + WINDOW_WIDTH as i64 + SCREEN_MARGIN as i64, 2560);
    assert_eq!(
        p.y + WINDOW_HEIGHT as i64 + SCREEN_MARGIN as i64,
        1440 - monitor.taskbar_height
    );
}

#[test]
fn popup_config_with_geometry_is_anchored() {
    let monitor = MonitorGeometry::from_probe(1920, 1080, 1040);
    let c = popup_window_config(Some(monitor));
    assert_eq!(c.width, 440);
    assert_eq!(c.height, 700);
    assert!(!c.closable && !c.fullscreen && !c.minimizable && !c.maximizable);
    assert!(!c.decorations && c.skip_taskbar && c.always_on_top && c.focused);
    assert_eq!(c.position, Some(Position { x: 1470, y: 330 }));
}

#[test]
fn popup_config_without_monitor_still_succeeds() {
    let c = popup_window_config(None);
    assert_eq!(c.position, None);
    assert_eq!(c.width, 440);
    assert_eq!(c.height, 700);
    assert!(c.focused && c.always_on_top && c.skip_taskbar);
}

#[test]
fn probe_window_is_maximized_and_invisible() {
    let c = probe_window_config();
    assert!(c.maximized);
    assert!(c.transparent);
    assert!(!c.decorations);
    assert!(c.skip_taskbar);
    assert!(!c.visible);
}

#[test]
fn focus_is_requested_unless_reported_focused() {
    assert!(!needs_focus_request(Some(true)));
    assert!(needs_focus_request(Some(false)));
    assert!(needs_focus_request(None));
}

#[test]
fn chrome_style_only_where_supported() {
    let s = chrome_style(true).unwrap();
    assert!(s.titlebar_transparent);
    assert_eq!((s.red, s.green, s.blue, s.alpha), (50, 158, 164, 255));
    assert_eq!(chrome_style(false), None);
}

#[test]
fn first_toggle_creates_focused_then_alternates() {
    let mut ctl = Controller::new();
    assert_eq!(ctl.state, VisState::Absent);
    assert_eq!(ctl.handle(VisEvent::Toggle), VisAction::CreateFocused);
    assert_eq!(ctl.state, VisState::Visible);
    assert_eq!(ctl.handle(VisEvent::Toggle), VisAction::Hide);
    assert_eq!(ctl.state, VisState::Hidden);
    assert_eq!(ctl.handle(VisEvent::Toggle), VisAction::ShowAndFocus);
    assert_eq!(ctl.state, VisState::Visible);
}

#[test]
fn many_toggles_never_recreate_and_strictly_alternate() {
    let mut ctl = Controller::new();
    assert_eq!(ctl.handle(VisEvent::Toggle), VisAction::CreateFocused);
    let mut expected = VisState::Visible;
    for _ in 0..100 {
        let before = ctl.state;
        let action = ctl.handle(VisEvent::Toggle);
        assert_ne!(action, VisAction::CreateFocused);
        assert_ne!(ctl.state, before);
        expected = if expected == VisState::Visible {
            VisState::Hidden
        } else {
            VisState::Visible
        };
        assert_eq!(ctl.state, expected);
    }
}

#[test]
fn focus_lost_hides_only_when_visible() {
    let mut ctl = Controller::new();
    ctl.handle(VisEvent::Toggle);
    assert_eq!(ctl.state, VisState::Visible);
    assert_eq!(ctl.focus_changed(false), VisAction::Hide);
    assert_eq!(ctl.state, VisState::Hidden);
    assert_eq!(ctl.focus_changed(false), VisAction::Nothing);
    assert_eq!(ctl.state, VisState::Hidden);
    assert_eq!(ctl.focus_changed(true), VisAction::Nothing);
    assert_eq!(ctl.state, VisState::Hidden);
}

#[test]
fn step_is_pure_over_states() {
    assert_eq!(
        step(VisState::Absent, VisEvent::Toggle),
        (VisState::Visible, VisAction::CreateFocused)
    );
    assert_eq!(
        step(VisState::Hidden, VisEvent::Toggle),
        (VisState::Visible, VisAction::ShowAndFocus)
    );
    assert_eq!(
        step(VisState::Visible, VisEvent::Toggle),
        (VisState::Hidden, VisAction::Hide)
    );
    assert_eq!(
        step(VisState::Visible, VisEvent::FocusLost),
        (VisState::Hidden, VisAction::Hide)
    );
    assert_eq!(
        step(VisState::Hidden, VisEvent::FocusLost),
        (VisState::Hidden, VisAction::Nothing)
    );
    assert_eq!(
        step(VisState::Absent, VisEvent::FocusLost),
        (VisState::Absent, VisAction::Nothing)
    );
}

#[test]
fn menu_ids_classify_as_expected() {
    assert_eq!(classify_menu_event("open"), MenuCommand::Open);
    assert_eq!(classify_menu_event("quit"), MenuCommand::Quit);
    assert_eq!(classify_menu_event("help"), MenuCommand::Unhandled);
    assert_eq!(classify_menu_event(""), MenuCommand::Unhandled);
    assert_eq!(classify_menu_event("Open"), MenuCommand::Unhandled);
}

#[test]
fn quit_exits_with_code_zero_from_any_state() {
    for initial in [VisState::Absent, VisState::Hidden, VisState::Visible] {
        let mut ctl = Controller { state: initial };
        assert_eq!(dispatch_menu_event(&mut ctl, "quit"), Reaction::Exit(0));
        assert_eq!(ctl.state, initial);
    }
}

#[test]
fn open_menu_on_absent_creates_focused_window() {
    let mut ctl = Controller::new();
    assert_eq!(
        dispatch_menu_event(&mut ctl, "open"),
        Reaction::Window(VisAction::CreateFocused)
    );
    assert_eq!(ctl.state, VisState::Visible);
    let c = popup_window_config(None);
    assert!(c.focused);
}

#[test]
fn open_menu_toggles_like_a_tray_click() {
    let mut ctl = Controller::new();
    ctl.handle(VisEvent::Toggle);
    assert_eq!(
        dispatch_menu_event(&mut ctl, "open"),
        Reaction::Window(VisAction::Hide)
    );
    assert_eq!(ctl.state, VisState::Hidden);
    assert_eq!(
        dispatch_menu_event(&mut ctl, "open"),
        Reaction::Window(VisAction::ShowAndFocus)
    );
    assert_eq!(ctl.state, VisState::Visible);
}

#[test]
fn unknown_menu_ids_are_ignored() {
    let mut ctl = Controller::new();
    ctl.handle(VisEvent::Toggle);
    assert_eq!(dispatch_menu_event(&mut ctl, "settings"), Reaction::Ignore);
    assert_eq!(ctl.state, VisState::Visible);
}

#[test]
fn only_left_click_release_toggles() {
    assert!(tray_event_toggles(TrayEvent::Click {
        button: TrayMouseButton::Left,
        button_state: TrayMouseButtonState::Up,
    }));
    assert!(!tray_event_toggles(TrayEvent::Click {
        button: TrayMouseButton::Left,
        button_state: TrayMouseButtonState::Down,
    }));
    assert!(!tray_event_toggles(TrayEvent::Click {
        button: TrayMouseButton::Right,
        button_state: TrayMouseButtonState::Up,
    }));
    assert!(!tray_event_toggles(TrayEvent::Click {
        button: TrayMouseButton::Middle,
        button_state: TrayMouseButtonState::Up,
    }));
    assert!(!tray_event_toggles(TrayEvent::Other));
}

#[test]
fn tray_clicks_drive_the_window() {
    let left_up = TrayEvent::Click {
        button: TrayMouseButton::Left,
        button_state: TrayMouseButtonState::Up,
    };
    let mut ctl = Controller::new();
    assert_eq!(
        dispatch_tray_event(&mut ctl, left_up),
        Reaction::Window(VisAction::CreateFocused)
    );
    assert_eq!(
        dispatch_tray_event(&mut ctl, left_up),
        Reaction::Window(VisAction::Hide)
    );
    assert_eq!(dispatch_tray_event(&mut ctl, TrayEvent::Other), Reaction::Ignore);
    assert_eq!(ctl.state, VisState::Hidden);
}

#[test]
fn tray_menu_has_open_and_quit() {
    let c = tray_menu_config();
    assert_eq!(c.items.len(), 2);
    assert_eq!(c.items[0].id, "open");
    assert_eq!(c.items[0].label, "Open Toolbox");
    assert!(c.items[0].enabled);
    assert_eq!(c.items[1].id, "quit");
    assert_eq!(c.items[1].label, "Quit Toolbox");
    assert!(c.items[1].enabled);
    assert!(!c.show_menu_on_left_click);
}

#[test]
fn greet_formats_the_name() {
    assert_eq!(
        godot_toolbox::commands::greet("World"),
        "Hello, World! You've been greeted from Rust!"
    );
    assert_eq!(
        godot_toolbox::commands::greet(""),
        "Hello, ! You've been greeted from Rust!"
    );
}
