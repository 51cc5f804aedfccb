use desktop_shell::effect::{Effect, EXIT_SUCCESS};
use desktop_shell::lifecycle::{
    close_requested, devtools_requested, dock_request, hide_requested, menu_event, quit_requested,
    show_requested, tray_event, ActivationPolicy, ButtonState, MouseButton, Platform, TrayEvent,
    DEFAULT_CLOSE_ON_EXIT, MAIN_WINDOW,
};

#[test]
fn constants_have_their_fixed_values() {
    assert_eq!(EXIT_SUCCESS, 0);
    assert_eq!(MAIN_WINDOW, "main");
    assert!(DEFAULT_CLOSE_ON_EXIT);
}

#[test]
fn close_with_policy_enabled_exits_with_zero() {
    assert_eq!(close_requested(true), vec![Effect::Exit(0)]);
}

#[test]
fn close_with_policy_disabled_vetoes_then_hides() {
    assert_eq!(close_requested(false), vec![Effect::PreventClose, Effect::HideWindow]);
}

#[test]
fn show_is_followed_by_focus() {
    assert_eq!(show_requested(), vec![Effect::ShowWindow, Effect::FocusWindow]);
}

#[test]
fn hide_only_hides() {
    assert_eq!(hide_requested(), vec![Effect::HideWindow]);
}

#[test]
fn quit_exits_with_zero() {
    assert_eq!(quit_requested(), vec![Effect::Exit(0)]);
}

#[test]
fn primary_release_shows_the_window() {
    let event = TrayEvent::Click { button: MouseButton::Primary, state: ButtonState::Released };
    assert_eq!(tray_event(event), vec![Effect::ShowWindow, Effect::FocusWindow]);
}

#[test]
fn primary_press_is_ignored() {
    let event = TrayEvent::Click { button: MouseButton::Primary, state: ButtonState::Pressed };
    assert_eq!(tray_event(event), vec![]);
}

#[test]
fn other_buttons_are_ignored() {
    for button in [MouseButton::Secondary, MouseButton::Middle] {
        for state in [ButtonState::Pressed, ButtonState::Released] {
            assert_eq!(tray_event(TrayEvent::Click { button, state }), vec![]);
        }
    }
}

#[test]
fn events_that_are_no_click_are_ignored() {
    assert_eq!(tray_event(TrayEvent::DoubleClick { button: MouseButton::Primary }), vec![]);
    assert_eq!(tray_event(TrayEvent::Enter), vec![]);
    assert_eq!(tray_event(TrayEvent::Move), vec![]);
    assert_eq!(tray_event(TrayEvent::Leave), vec![]);
}

#[test]
fn menu_show_shows_and_focuses() {
    assert_eq!(menu_event("tray_show"), vec![Effect::ShowWindow, Effect::FocusWindow]);
}

#[test]
fn menu_hide_hides() {
    assert_eq!(menu_event("tray_hide"), vec![Effect::HideWindow]);
}

#[test]
fn menu_quit_exits_with_zero() {
    assert_eq!(menu_event("tray_quit"), vec![Effect::Exit(0)]);
}

#[test]
fn unknown_menu_identifiers_are_ignored() {
    for id in ["", "quit", "tray_", "tray_show ", "TRAY_SHOW", "tray_quit2", "status", "main"] {
        assert_eq!(menu_event(id), vec![], "{id:?}");
    }
}

#[test]
fn devtools_open_and_close() {
    assert_eq!(devtools_requested(true), vec![Effect::OpenDevtools]);
    assert_eq!(devtools_requested(false), vec![Effect::CloseDevtools]);
}

#[test]
fn dock_request_on_a_platform_with_a_dock() {
    let platform = Platform { dock_policy: true, status_area: true };
    assert_eq!(dock_request(platform, true), Some(ActivationPolicy::Regular));
    assert_eq!(dock_request(platform, false), Some(ActivationPolicy::Accessory));
}

#[test]
fn dock_request_on_a_platform_without_a_dock() {
    let platform = Platform { dock_policy: false, status_area: true };
    assert_eq!(dock_request(platform, true), None);
    assert_eq!(dock_request(platform, false), None);
}
