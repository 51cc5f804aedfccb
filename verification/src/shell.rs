//! A model of what the shell governs besides the status-area icon: the
//! main window, the process, the close policy and the dock presence. Every
//! event and command is a transition of this model.

use crate::effect::{Effect, EXIT_SUCCESS};
use crate::lifecycle::{
    close_effects, close_requested, devtools_effects, devtools_requested, dock_policy_for,
    dock_request, is_activation, menu_event, menu_event_effects, quit_effects, quit_requested,
    tray_event, tray_event_effects, ActivationPolicy, Platform, TrayEvent, DEFAULT_CLOSE_ON_EXIT,
};
use crate::tray::outcome_view;
use vstd::prelude::*;

verus! {

/// The main window. Hiding it keeps the window and everything it holds.
#[derive(Clone, Copy, PartialEq, Eq, Debug)]
pub struct MainWindow {
    /// Whether the window is on screen.
    pub visible: bool,
    /// Whether the window has the input focus.
    pub focused: bool,
    /// Whether the debugging panel is open.
    pub devtools_open: bool,
}

/// The state that events and commands act on.
#[derive(Clone, Copy, PartialEq, Eq, Debug)]
pub struct Shell {
    /// What the platform is able to do.
    pub platform: Platform,
    /// The close policy: whether a close request terminates the process.
    pub close_on_exit: bool,
    /// The status that the process exited with, `None` while it runs.
    pub exit_code: Option<i32>,
    /// The main window, `None` where there is none.
    pub window: Option<MainWindow>,
    /// The dock presence.
    pub activation: ActivationPolicy,
}

impl MainWindow {
    /// The window after the platform carried out `effect`.
    pub open spec fn after(self, effect: Effect) -> MainWindow {
        match effect {
            Effect::ShowWindow => MainWindow { visible: true, ..self },
            Effect::FocusWindow => MainWindow { focused: self.visible, ..self },
            Effect::HideWindow => MainWindow { visible: false, focused: false, ..self },
            Effect::OpenDevtools => MainWindow { devtools_open: true, ..self },
            Effect::CloseDevtools => MainWindow { devtools_open: false, ..self },
            Effect::PreventClose => self,
            Effect::Exit(_) => self,
        }
    }

    /// Carries out `effect` on the window.
    pub fn apply(&mut self, effect: Effect)
        ensures
            *final(self) == old(self).after(effect),
    {
        match effect {
            Effect::ShowWindow => {
                self.visible = true;
            },
            Effect::FocusWindow => {
                self.focused = self.visible;
            },
            Effect::HideWindow => {
                self.visible = false;
                self.focused = false;
            },
            Effect::OpenDevtools => {
                self.devtools_open = true;
            },
            Effect::CloseDevtools => {
                self.devtools_open = false;
            },
            Effect::PreventClose => {},
            Effect::Exit(_) => {},
        }
    }
}

impl Shell {
    /// The state at application start: the policy at its default, the
    /// process running, the window, if there is one, visible.
    pub open spec fn initial(platform: Platform, has_window: bool) -> Shell {
        Shell {
            platform,
            close_on_exit: DEFAULT_CLOSE_ON_EXIT,
            exit_code: None,
            window: if has_window {
                Some(MainWindow { visible: true, focused: false, devtools_open: false })
            } else {
                None
            },
            activation: ActivationPolicy::Regular,
        }
    }

    /// Whether the process still runs.
    pub open spec fn running(self) -> bool {
        self.exit_code is None
    }

    /// Only a visible window has the focus.
    pub open spec fn well_formed(self) -> bool {
        match self.window {
            Some(window) => window.focused ==> window.visible,
            None => true,
        }
    }

    /// The state after the platform carried out `effect`. Once the process
    /// has exited nothing happens any more. Requests that concern the
    /// window do nothing where there is no window.
    pub open spec fn after(self, effect: Effect) -> Shell {
        if !self.running() {
            self
        } else {
            match effect {
                Effect::Exit(code) => Shell { exit_code: Some(code), ..self },
                _ => match self.window {
                    Some(window) => Shell { window: Some(window.after(effect)), ..self },
                    None => self,
                },
            }
        }
    }

    /// The state after the first `n` of `effects` were carried out in order.
    pub open spec fn after_first(self, effects: Seq<Effect>, n: nat) -> Shell
        decreases n,
    {
        if n == 0 || n > effects.len() {
            self
        } else {
            self.after_first(effects, (n - 1) as nat).after(effects[n - 1])
        }
    }

    /// The state after all of `effects` were carried out in order.
    pub open spec fn after_all(self, effects: Seq<Effect>) -> Shell {
        self.after_first(effects, effects.len())
    }

    /// The state after a close request that was answered with `effects`.
    /// Unless the answer vetoes it or ends the process, the platform goes on
    /// to destroy the window.
    pub open spec fn after_close_answered(self, effects: Seq<Effect>) -> Shell {
        let answered = self.after_all(effects);
        if answered.running() && !effects.contains(Effect::PreventClose) {
            Shell { window: None, ..answered }
        } else {
            answered
        }
    }

    /// The state after the user invoked the window's close control.
    pub open spec fn after_close_requested(self) -> Shell {
        self.after_close_answered(close_effects(self.close_on_exit))
    }

    /// The state after the platform reported `event` on the icon.
    pub open spec fn after_tray_event(self, event: TrayEvent) -> Shell {
        self.after_all(tray_event_effects(event))
    }

    /// The state after the entry registered under `id` was selected.
    pub open spec fn after_menu_event(self, id: Seq<char>) -> Shell {
        self.after_all(menu_event_effects(id))
    }

    /// The state after the quit command.
    pub open spec fn after_quit(self) -> Shell {
        self.after_all(quit_effects())
    }

    /// The state after the command that opens or closes the debugging
    /// panel.
    pub open spec fn after_set_devtools(self, enabled: bool) -> Shell {
        self.after_all(devtools_effects(enabled))
    }

    /// The state after the command that shows or hides the dock icon. On a
    /// platform with a dock the command makes one call; `fault` is the
    /// platform's message if that call fails, and then nothing changes.
    pub open spec fn after_set_dock(self, visible: bool, fault: Option<Seq<char>>) -> Shell {
        match dock_policy_for(self.platform, visible) {
            Some(policy) => if fault is None && self.running() {
                Shell { activation: policy, ..self }
            } else {
                self
            },
            None => self,
        }
    }

    /// What the command that shows or hides the dock icon returns: the
    /// platform's message if its call was made and failed, success
    /// otherwise.
    pub open spec fn set_dock_result(self, visible: bool, fault: Option<Seq<char>>) -> Result<
        (),
        Seq<char>,
    > {
        match (dock_policy_for(self.platform, visible), fault) {
            (Some(_), Some(message)) => Err(message),
            _ => Ok(()),
        }
    }

    /// The state at application start.
    pub fn new(platform: Platform, has_window: bool) -> (shell: Shell)
        ensures
            shell == Shell::initial(platform, has_window),
    {
        Shell {
            platform,
            close_on_exit: DEFAULT_CLOSE_ON_EXIT,
            exit_code: None,
            window: if has_window {
                Some(MainWindow { visible: true, focused: false, devtools_open: false })
            } else {
                None
            },
            activation: ActivationPolicy::Regular,
        }
    }

    /// Whether the process still runs.
    pub fn is_running(&self) -> (running: bool)
        ensures
            running == self.running(),
    {
        self.exit_code.is_none()
    }

    /// Reads the close policy: the value that was set last, or the default.
    pub fn close_on_exit(&self) -> (enabled: bool)
        ensures
            enabled == self.close_on_exit,
    {
        self.close_on_exit
    }

    /// Overwrites the close policy. Nothing else changes; the next close
    /// request goes by the new value.
    pub fn set_close_on_exit(&mut self, enabled: bool)
        ensures
            *final(self) == (Shell { close_on_exit: enabled, ..*old(self) }),
    {
        self.close_on_exit = enabled;
    }

    /// Carries out one request of the shell.
    pub fn apply(&mut self, effect: Effect)
        ensures
            *final(self) == old(self).after(effect),
    {
        if self.exit_code.is_some() {
            return ;
        }
        match effect {
            Effect::Exit(code) => {
                self.exit_code = Some(code);
            },
            _ => {
                match self.window {
                    Some(mut window) => {
                        window.apply(effect);
                        self.window = Some(window);
                    },
                    None => {},
                }
            },
        }
    }

    /// Carries out the requests in `effects` in order.
    pub fn apply_all(&mut self, effects: &Vec<Effect>)
        ensures
            *final(self) == old(self).after_all(effects@),
    {
        let mut done: usize = 0;
        while done < effects.len()
            invariant
                done <= effects.len(),
                *self == old(self).after_first(effects@, done as nat),
            decreases effects.len() - done,
        {
            self.apply(effects[done]);
            done = done + 1;
        }
    }

    /// Handles a close request that the shell answered with `effects`, the
    /// way the platform does: it carries the answer out and then, unless
    /// the answer vetoed it or ended the process, destroys the window.
    pub fn close_answered(&mut self, effects: &Vec<Effect>)
        ensures
            *final(self) == old(self).after_close_answered(effects@),
    {
        self.apply_all(effects);
        if self.exit_code.is_none() && !vetoes_close(effects) {
            self.window = None;
        }
    }

    /// The user invoked the window's close control.
    pub fn close_requested(&mut self)
        ensures
            *final(self) == old(self).after_close_requested(),
    {
        let effects = close_requested(self.close_on_exit);
        self.close_answered(&effects);
    }

    /// The platform reported an event on the status-area icon.
    pub fn tray_event(&mut self, event: TrayEvent)
        ensures
            *final(self) == old(self).after_tray_event(event),
    {
        let effects = tray_event(event);
        self.apply_all(&effects);
    }

    /// The entry registered under `id` was selected in the icon's menu.
    pub fn menu_event(&mut self, id: &str)
        ensures
            *final(self) == old(self).after_menu_event(id@),
    {
        let effects = menu_event(id);
        self.apply_all(&effects);
    }

    /// The command that terminates the process.
    pub fn quit_app(&mut self)
        ensures
            *final(self) == old(self).after_quit(),
    {
        let effects = quit_requested();
        self.apply_all(&effects);
    }

    /// The command that opens or closes the debugging panel. It never
    /// fails; without a window it does nothing.
    pub fn set_devtools(&mut self, enabled: bool) -> (result: Result<(), String>)
        ensures
            result is Ok,
            *final(self) == old(self).after_set_devtools(enabled),
    {
        let effects = devtools_requested(enabled);
        self.apply_all(&effects);
        Ok(())
    }

    /// The command that shows or hides the dock icon. On a platform without
    /// a dock it succeeds and does nothing. Elsewhere it asks the platform
    /// for the activation policy; `fault` is the message of the platform if
    /// that call fails, and the command then fails with it.
    pub fn set_dock_icon_visibility(&mut self, visible: bool, fault: Option<String>) -> (result:
        Result<(), String>)
        ensures
            *final(self) == old(self).after_set_dock(visible, message_view(fault)),
            outcome_view(result) == old(self).set_dock_result(visible, message_view(fault)),
    {
        match dock_request(self.platform, visible) {
            Some(policy) => match fault {
                Some(message) => Err(message),
                None => {
                    if self.exit_code.is_none() {
                        self.activation = policy;
                    }
                    Ok(())
                },
            },
            None => Ok(()),
        }
    }
}

/// A message as contracts see it: by its characters.
pub open spec fn message_view(message: Option<String>) -> Option<Seq<char>> {
    match message {
        Some(message) => Some(message@),
        None => None,
    }
}

/// Whether `effects` holds the veto of the platform's default reaction to
/// a close request.
pub fn vetoes_close(effects: &Vec<Effect>) -> (vetoed: bool)
    ensures
        vetoed == effects@.contains(Effect::PreventClose),
{
    let mut seen: usize = 0;
    while seen < effects.len()
        invariant
            seen <= effects.len(),
            forall|i: int| 0 <= i < seen ==> effects@[i] != Effect::PreventClose,
        decreases effects.len() - seen,
    {
        if effects[seen] == Effect::PreventClose {
            return true;
        }
        seen = seen + 1;
    }
    false
}

/// The window as it is once it was hidden.
pub open spec fn hidden(window: MainWindow) -> MainWindow {
    MainWindow { visible: false, focused: false, ..window }
}

/// The window as it is once it was shown and given the focus.
pub open spec fn shown(window: MainWindow) -> MainWindow {
    MainWindow { visible: true, focused: true, ..window }
}

/// What a close request does is decided by the close policy alone. Where
/// the policy is to exit, the process ends, with status zero if it ran.
/// Where it is not, a running process keeps running and the window is
/// hidden and kept: the platform never gets to destroy it.
pub proof fn lemma_close_follows_policy(shell: Shell)
    ensures
        shell.close_on_exit ==> !shell.after_close_requested().running(),
        shell.close_on_exit && shell.running() ==> shell.after_close_requested() == (Shell {
            exit_code: Some(EXIT_SUCCESS),
            ..shell
        }),
        !shell.close_on_exit && shell.running() ==> shell.after_close_requested() == (Shell {
            window: match shell.window {
                Some(window) => Some(hidden(window)),
                None => None,
            },
            ..shell
        }),
{
    reveal_with_fuel(Shell::after_first, 3);
    let effects = close_effects(shell.close_on_exit);
    if !shell.close_on_exit {
        assert(effects[0] == Effect::PreventClose);
    } else {
        assert(effects[0] == Effect::Exit(EXIT_SUCCESS));
    }
    if !shell.running() {
        lemma_exit_is_final(shell, effects, effects.len());
    }
}

/// The quit command and the selection of the Quit entry end the process
/// and touch nothing else; a process that ran ends with status zero. The
/// close policy has no part in it: under any other policy the outcome is
/// the same.
pub proof fn lemma_quit_ignores_policy(shell: Shell, policy: bool)
    ensures
        !shell.after_quit().running(),
        shell.running() ==> shell.after_quit() == (Shell { exit_code: Some(EXIT_SUCCESS), ..shell }),
        shell.after_menu_event("tray_quit"@) == shell.after_quit(),
        (Shell { close_on_exit: policy, ..shell }).after_quit() == (Shell {
            close_on_exit: policy,
            ..shell.after_quit()
        }),
{
    reveal_with_fuel(Shell::after_first, 3);
    crate::menu::lemma_ids_distinct();
}

/// After the primary button was released on the icon, and after the Show
/// entry was selected, the window is visible and has the focus.
pub proof fn lemma_show_requested(shell: Shell, event: TrayEvent)
    requires
        shell.running(),
        shell.window is Some,
        is_activation(event),
    ensures
        shell.after_tray_event(event) == (Shell {
            window: Some(shown(shell.window.unwrap())),
            ..shell
        }),
        shell.after_menu_event("tray_show"@) == shell.after_tray_event(event),
{
    reveal_with_fuel(Shell::after_first, 3);
}

/// Showing a window that is shown and focused, and hiding one that is
/// hidden, change nothing: both requests can be repeated at will.
pub proof fn lemma_show_and_hide_are_idempotent(shell: Shell)
    ensures
        shell.after_menu_event("tray_show"@).after_menu_event("tray_show"@)
            == shell.after_menu_event("tray_show"@),
        shell.after_menu_event("tray_hide"@).after_menu_event("tray_hide"@)
            == shell.after_menu_event("tray_hide"@),
{
    reveal_with_fuel(Shell::after_first, 3);
    crate::menu::lemma_ids_distinct();
}

/// After the Hide entry was selected the window is hidden and kept.
pub proof fn lemma_hide_requested(shell: Shell)
    requires
        shell.running(),
        shell.window is Some,
    ensures
        shell.after_menu_event("tray_hide"@) == (Shell {
            window: Some(hidden(shell.window.unwrap())),
            ..shell
        }),
{
    reveal_with_fuel(Shell::after_first, 3);
    crate::menu::lemma_ids_distinct();
}

/// Events on the icon other than the release of the primary button change
/// nothing, and neither does the selection of an identifier that is not
/// one of the menu's.
pub proof fn lemma_other_events_ignored(shell: Shell, event: TrayEvent, id: Seq<char>)
    ensures
        !is_activation(event) ==> shell.after_tray_event(event) == shell,
        crate::menu::entry_with_id(id) is None ==> shell.after_menu_event(id) == shell,
{
}

/// Once the process has exited, requests of the shell change nothing.
pub proof fn lemma_exit_is_final(shell: Shell, effects: Seq<Effect>, n: nat)
    requires
        !shell.running(),
    ensures
        shell.after_first(effects, n) == shell,
    decreases n,
{
    if n > 0 {
        lemma_exit_is_final(shell, effects, (n - 1) as nat);
    }
}

/// Exit is final: once the process has exited, no event and no command
/// that acts through requests changes the state.
pub proof fn lemma_exited_ignores_events(shell: Shell, event: TrayEvent, id: Seq<char>, enabled: bool)
    requires
        !shell.running(),
    ensures
        shell.after_close_requested() == shell,
        shell.after_tray_event(event) == shell,
        shell.after_menu_event(id) == shell,
        shell.after_quit() == shell,
        shell.after_set_devtools(enabled) == shell,
{
    let closing = close_effects(shell.close_on_exit);
    lemma_exit_is_final(shell, closing, closing.len());
    lemma_exit_is_final(shell, tray_event_effects(event), tray_event_effects(event).len());
    lemma_exit_is_final(shell, menu_event_effects(id), menu_event_effects(id).len());
    lemma_exit_is_final(shell, quit_effects(), quit_effects().len());
    lemma_exit_is_final(shell, devtools_effects(enabled), devtools_effects(enabled).len());
}

/// No request of the shell makes or destroys the window, gives the focus to
/// a hidden window, changes the policy or the dock presence, or brings an
/// exited process back.
pub proof fn lemma_effects_keep_window(shell: Shell, effects: Seq<Effect>, n: nat)
    ensures
        shell.after_first(effects, n).window is Some <==> shell.window is Some,
        shell.well_formed() ==> shell.after_first(effects, n).well_formed(),
        shell.after_first(effects, n).close_on_exit == shell.close_on_exit,
        shell.after_first(effects, n).activation == shell.activation,
        shell.after_first(effects, n).platform == shell.platform,
        !shell.running() ==> !shell.after_first(effects, n).running(),
    decreases n,
{
    if n > 0 && n <= effects.len() {
        lemma_effects_keep_window(shell, effects, (n - 1) as nat);
    }
}

/// While the process runs the window is never destroyed: whatever the
/// policy, each event and each command leaves a window where there was one.
pub proof fn lemma_window_outlives_events(shell: Shell, event: TrayEvent, id: Seq<char>, enabled: bool)
    requires
        shell.window is Some,
    ensures
        shell.after_close_requested().window is Some,
        shell.after_tray_event(event).window is Some,
        shell.after_menu_event(id).window is Some,
        shell.after_quit().window is Some,
        shell.after_set_devtools(enabled).window is Some,
{
    let closing = close_effects(shell.close_on_exit);
    lemma_effects_keep_window(shell, closing, closing.len());
    if shell.close_on_exit {
        if shell.running() {
            lemma_close_follows_policy(shell);
        }
    } else {
        assert(closing[0] == Effect::PreventClose);
    }
    lemma_effects_keep_window(shell, tray_event_effects(event), tray_event_effects(event).len());
    lemma_effects_keep_window(shell, menu_event_effects(id), menu_event_effects(id).len());
    lemma_effects_keep_window(shell, quit_effects(), quit_effects().len());
    lemma_effects_keep_window(shell, devtools_effects(enabled), devtools_effects(enabled).len());
}

} // verus!
