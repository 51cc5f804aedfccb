//! The window life cycle coordinator: what each event does to the main
//! window and to the process, expressed as the requests to make of the
//! platform.

use crate::effect::{Effect, EXIT_SUCCESS};
use crate::menu::{entry_with_id, MenuEntry};
use vstd::prelude::*;

verus! {

/// Logical name of the one window that the shell drives.
pub const MAIN_WINDOW: &'static str = "main";

/// The close policy in force when the process starts: closing the window
/// terminates the process.
pub const DEFAULT_CLOSE_ON_EXIT: bool = true;

/// Which button of the pointing device an event reports.
#[derive(Clone, Copy, PartialEq, Eq, Debug, Structural)]
pub enum MouseButton {
    /// The button under the index finger, the left one by default.
    Primary,
    /// The button that opens context menus, the right one by default.
    Secondary,
    /// The middle button or the wheel.
    Middle,
}

/// Whether the button went down or came up.
#[derive(Clone, Copy, PartialEq, Eq, Debug, Structural)]
pub enum ButtonState {
    Pressed,
    Released,
}

/// What the platform reports of the pointer and the status-area icon.
/// Positions are left out: no decision depends on them.
#[derive(Clone, Copy, PartialEq, Eq, Debug, Structural)]
pub enum TrayEvent {
    /// A button went down or came up on the icon.
    Click { button: MouseButton, state: ButtonState },
    /// A button was clicked twice on the icon.
    DoubleClick { button: MouseButton },
    /// The pointer entered the icon.
    Enter,
    /// The pointer moved over the icon.
    Move,
    /// The pointer left the icon.
    Leave,
}

/// How the application presents itself in the dock and the application
/// switcher, on platforms that have them.
#[derive(Clone, Copy, PartialEq, Eq, Debug, Structural)]
pub enum ActivationPolicy {
    /// Present in the dock and in the switcher.
    Regular,
    /// Absent from the dock.
    Accessory,
}

/// What the platform the process runs on is able to do.
#[derive(Clone, Copy, PartialEq, Eq, Debug, Structural)]
pub struct Platform {
    /// The platform has a dock presence that can be switched.
    pub dock_policy: bool,
    /// The platform has a status area that can hold an icon.
    pub status_area: bool,
}

/// Showing the window is always followed by a request for the focus.
pub open spec fn show_effects() -> Seq<Effect> {
    seq![Effect::ShowWindow, Effect::FocusWindow]
}

/// Hiding is a single request; the window is kept.
pub open spec fn hide_effects() -> Seq<Effect> {
    seq![Effect::HideWindow]
}

/// Quitting is a single request: exit at once, with status zero.
pub open spec fn quit_effects() -> Seq<Effect> {
    seq![Effect::Exit(EXIT_SUCCESS)]
}

/// A close request terminates the process where the policy says so;
/// otherwise the platform's own reaction is vetoed and the window hidden.
pub open spec fn close_effects(close_on_exit: bool) -> Seq<Effect> {
    if close_on_exit {
        quit_effects()
    } else {
        seq![Effect::PreventClose, Effect::HideWindow]
    }
}

/// Only the release of the primary button on the icon does anything: it
/// shows the window.
pub open spec fn is_activation(event: TrayEvent) -> bool {
    event == (TrayEvent::Click { button: MouseButton::Primary, state: ButtonState::Released })
}

/// The reaction to an event on the icon: an activation shows the window,
/// anything else is ignored.
pub open spec fn tray_event_effects(event: TrayEvent) -> Seq<Effect> {
    if is_activation(event) {
        show_effects()
    } else {
        Seq::empty()
    }
}

/// What the selection of each entry asks for.
pub open spec fn entry_effects(entry: MenuEntry) -> Seq<Effect> {
    match entry {
        MenuEntry::Show => show_effects(),
        MenuEntry::Hide => hide_effects(),
        MenuEntry::Quit => quit_effects(),
        MenuEntry::Separator => Seq::empty(),
    }
}

/// The selection of a menu entry is routed by the entry's identifier;
/// identifiers that the shell did not hand out are ignored.
pub open spec fn menu_event_effects(id: Seq<char>) -> Seq<Effect> {
    match entry_with_id(id) {
        Some(entry) => entry_effects(entry),
        None => Seq::empty(),
    }
}

/// Opening or closing the debugging panel is a single request.
pub open spec fn devtools_effects(enabled: bool) -> Seq<Effect> {
    if enabled {
        seq![Effect::OpenDevtools]
    } else {
        seq![Effect::CloseDevtools]
    }
}

/// The activation policy to ask the platform for, `None` where the platform
/// has no dock and nothing is to be asked.
pub open spec fn dock_policy_for(platform: Platform, visible: bool) -> Option<ActivationPolicy> {
    if !platform.dock_policy {
        None
    } else if visible {
        Some(ActivationPolicy::Regular)
    } else {
        Some(ActivationPolicy::Accessory)
    }
}

/// The requests that bring the window back: show, then focus.
pub fn show_requested() -> (effects: Vec<Effect>)
    ensures
        effects@ == show_effects(),
{
    vec![Effect::ShowWindow, Effect::FocusWindow]
}

/// The request that hides the window.
pub fn hide_requested() -> (effects: Vec<Effect>)
    ensures
        effects@ == hide_effects(),
{
    vec![Effect::HideWindow]
}

/// The request that terminates the process, whatever the close policy is.
pub fn quit_requested() -> (effects: Vec<Effect>)
    ensures
        effects@ == quit_effects(),
{
    vec![Effect::Exit(EXIT_SUCCESS)]
}

/// The reaction to the user invoking the window's close control, given the
/// close policy read at that moment.
pub fn close_requested(close_on_exit: bool) -> (effects: Vec<Effect>)
    ensures
        effects@ == close_effects(close_on_exit),
{
    if close_on_exit {
        quit_requested()
    } else {
        vec![Effect::PreventClose, Effect::HideWindow]
    }
}

/// The reaction to an event on the status-area icon.
pub fn tray_event(event: TrayEvent) -> (effects: Vec<Effect>)
    ensures
        effects@ == tray_event_effects(event),
{
    match event {
        TrayEvent::Click { button: MouseButton::Primary, state: ButtonState::Released } => {
            show_requested()
        },
        _ => Vec::new(),
    }
}

/// The reaction to the selection of the menu entry registered under `id`.
pub fn menu_event(id: &str) -> (effects: Vec<Effect>)
    ensures
        effects@ == menu_event_effects(id@),
{
    match MenuEntry::from_id(id) {
        Some(MenuEntry::Show) => show_requested(),
        Some(MenuEntry::Hide) => hide_requested(),
        Some(MenuEntry::Quit) => quit_requested(),
        _ => Vec::new(),
    }
}

/// The request that opens or closes the debugging panel.
pub fn devtools_requested(enabled: bool) -> (effects: Vec<Effect>)
    ensures
        effects@ == devtools_effects(enabled),
{
    if enabled {
        vec![Effect::OpenDevtools]
    } else {
        vec![Effect::CloseDevtools]
    }
}

/// The activation policy that makes the dock icon visible or not, or `None`
/// on a platform without a dock.
pub fn dock_request(platform: Platform, visible: bool) -> (policy: Option<ActivationPolicy>)
    ensures
        policy == dock_policy_for(platform, visible),
{
    if !platform.dock_policy {
        None
    } else if visible {
        Some(ActivationPolicy::Regular)
    } else {
        Some(ActivationPolicy::Accessory)
    }
}

} // verus!
