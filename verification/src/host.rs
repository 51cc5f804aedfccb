//! A model of the platform's side of the status-area icon: the icons that
//! are registered under the shell's identifier, and what each call of the
//! tray controller does to them.
//!
//! The platform keeps a list of registered icons and does not refuse a
//! second icon under an identifier that is taken. That the list never holds
//! more than one is therefore a property of the controller, and it is
//! proved here.

use crate::menu::{layout, menu_layout, MenuEntry};
use crate::tray::{
    begin_state, outcome_view, state_after_call, state_after_lookup, HostCall, RequestState,
    TrayRequest, TRAY_MENU_ON_LEFT_CLICK,
};
use vstd::prelude::*;

verus! {

/// A registered icon.
#[derive(PartialEq, Eq, Debug)]
pub struct TrayIcon {
    /// Whether the icon is shown in the status area.
    pub visible: bool,
    /// The menu attached to the icon, top to bottom.
    pub menu: Vec<MenuEntry>,
    /// Whether the primary button opens the menu.
    pub menu_on_left_click: bool,
    /// Whether the handlers for clicks on the icon and for selections in
    /// its menu are attached.
    pub handles_events: bool,
}

/// A registered icon as contracts see it: the same properties, the menu as
/// a sequence.
pub struct IconState {
    pub visible: bool,
    pub menu: Seq<MenuEntry>,
    pub menu_on_left_click: bool,
    pub handles_events: bool,
}

impl View for TrayIcon {
    type V = IconState;

    open spec fn view(&self) -> IconState {
        IconState {
            visible: self.visible,
            menu: self.menu@,
            menu_on_left_click: self.menu_on_left_click,
            handles_events: self.handles_events,
        }
    }
}

/// The icons registered under the shell's identifier, oldest first.
#[derive(PartialEq, Eq, Debug)]
pub struct TrayHost {
    pub icons: Vec<TrayIcon>,
}

impl View for TrayHost {
    type V = Seq<IconState>;

    open spec fn view(&self) -> Seq<IconState> {
        self.icons@.map_values(|icon: TrayIcon| icon@)
    }
}

/// Whether a lookup by the identifier finds an icon.
pub open spec fn has_icon(icons: Seq<IconState>) -> bool {
    icons.len() > 0
}

/// An icon as it is right after it was built: shown, with the standard
/// menu, which the primary button does not open, and with its handlers.
pub open spec fn built_icon() -> IconState {
    IconState {
        visible: true,
        menu: layout(),
        menu_on_left_click: TRAY_MENU_ON_LEFT_CLICK,
        handles_events: true,
    }
}

/// Whether nothing is missing from the icon: it carries the standard menu,
/// the primary button is free for showing the window, and the handlers are
/// attached.
pub open spec fn complete(icon: IconState) -> bool {
    icon.menu == layout() && icon.menu_on_left_click == TRAY_MENU_ON_LEFT_CLICK
        && icon.handles_events
}

/// The icon after a successful call that addresses it.
pub open spec fn icon_after(icon: IconState, call: HostCall) -> IconState {
    match call {
        HostCall::AttachMenu => IconState { menu: layout(), ..icon },
        HostCall::SetMenuOnLeftClick(enable) => IconState { menu_on_left_click: enable, ..icon },
        HostCall::SetIconVisible(visible) => IconState { visible, ..icon },
        _ => icon,
    }
}

/// The registered icons after a successful call. Building registers one
/// more icon. Creating entries and assembling a menu register nothing. The
/// other calls address the icon that a lookup by the identifier finds,
/// which is the oldest one, and do nothing where there is none.
pub open spec fn icons_after(icons: Seq<IconState>, call: HostCall) -> Seq<IconState> {
    match call {
        HostCall::BuildIcon => icons.push(built_icon()),
        HostCall::CreateEntry(_) => icons,
        HostCall::AssembleMenu => icons,
        _ => if has_icon(icons) {
            icons.update(0, icon_after(icons[0], call))
        } else {
            icons
        },
    }
}

/// A failure that the platform is to answer one call of a request with.
#[derive(PartialEq, Eq, Debug)]
pub struct Fault {
    /// Which call of the request fails, counted from zero. Lookups cannot
    /// fail and are not counted.
    pub at: usize,
    /// The platform's message.
    pub message: String,
}

/// A failure as contracts see it.
pub struct FaultState {
    pub at: nat,
    pub message: Seq<char>,
}

impl View for Fault {
    type V = FaultState;

    open spec fn view(&self) -> FaultState {
        FaultState { at: self.at as nat, message: self.message@ }
    }
}

/// The failure, if any, as contracts see it.
pub open spec fn fault_view(fault: Option<Fault>) -> Option<FaultState> {
    match fault {
        Some(fault) => Some(fault@),
        None => None,
    }
}

/// How the platform answers the call made after `made` others.
pub open spec fn answer(fault: Option<FaultState>, made: nat) -> Result<(), Seq<char>> {
    match fault {
        Some(fault) => if fault.at == made {
            Err(fault.message)
        } else {
            Ok(())
        },
        None => Ok(()),
    }
}

/// Where a request in state `state` ends, step by step: what it returns and
/// which icons are registered then. `made` calls were made before. A call
/// that fails changes nothing.
pub open spec fn completion(
    state: RequestState,
    icons: Seq<IconState>,
    made: nat,
    fault: Option<FaultState>,
) -> (Result<(), Seq<char>>, Seq<IconState>)
    decreases state.remaining(),
{
    match state {
        RequestState::Done => (Ok(()), icons),
        RequestState::Failed(message) => (Err(message), icons),
        RequestState::Lookup { reveal } => completion(
            state_after_lookup(reveal, has_icon(icons)),
            icons,
            made,
            fault,
        ),
        RequestState::Call(call) => {
            let outcome = answer(fault, made);
            let registered = if outcome is Ok {
                icons_after(icons, call)
            } else {
                icons
            };
            completion(state_after_call(call, outcome), registered, made + 1, fault)
        },
    }
}

/// The calls that a request makes if none fails, in order.
pub open spec fn planned_calls(status_area: bool, visible: bool, found: bool) -> Seq<HostCall> {
    if !status_area {
        Seq::empty()
    } else if visible {
        if found {
            seq![
                HostCall::CreateEntry(MenuEntry::Show),
                HostCall::CreateEntry(MenuEntry::Hide),
                HostCall::CreateEntry(MenuEntry::Quit),
                HostCall::CreateEntry(MenuEntry::Separator),
                HostCall::AssembleMenu,
                HostCall::AttachMenu,
                HostCall::SetMenuOnLeftClick(TRAY_MENU_ON_LEFT_CLICK),
                HostCall::SetIconVisible(true),
            ]
        } else {
            seq![
                HostCall::CreateEntry(MenuEntry::Show),
                HostCall::CreateEntry(MenuEntry::Hide),
                HostCall::CreateEntry(MenuEntry::Quit),
                HostCall::CreateEntry(MenuEntry::Separator),
                HostCall::AssembleMenu,
                HostCall::BuildIcon,
                HostCall::SetIconVisible(true),
            ]
        }
    } else if found {
        seq![HostCall::SetIconVisible(false)]
    } else {
        Seq::empty()
    }
}

/// The registered icons after the first `n` of `calls` succeeded.
pub open spec fn icons_after_first(icons: Seq<IconState>, calls: Seq<HostCall>, n: nat) -> Seq<
    IconState,
>
    decreases n,
{
    if n == 0 || n > calls.len() {
        icons
    } else {
        icons_after(icons_after_first(icons, calls, (n - 1) as nat), calls[n - 1])
    }
}

/// What a request returns and which icons are registered after it.
///
/// The request makes its planned calls in order. If the fault names one of
/// them, the request returns the fault's message, and the calls before that
/// one are the only ones that took effect. Otherwise the request returns
/// success after all of them.
pub open spec fn request_outcome(
    icons: Seq<IconState>,
    status_area: bool,
    visible: bool,
    fault: Option<FaultState>,
) -> (Result<(), Seq<char>>, Seq<IconState>) {
    let calls = planned_calls(status_area, visible, has_icon(icons));
    match fault {
        Some(fault) => if fault.at < calls.len() {
            (Err(fault.message), icons_after_first(icons, calls, fault.at))
        } else {
            (Ok(()), icons_after_first(icons, calls, calls.len()))
        },
        None => (Ok(()), icons_after_first(icons, calls, calls.len())),
    }
}

impl TrayHost {
    /// A platform on which no icon is registered yet.
    pub fn new() -> (host: TrayHost)
        ensures
            host@ == Seq::<IconState>::empty(),
    {
        let host = TrayHost { icons: Vec::new() };
        assert(host@ =~= Seq::<IconState>::empty());
        host
    }

    /// Whether a lookup by the identifier finds an icon.
    pub fn has_icon(&self) -> (found: bool)
        ensures
            found == has_icon(self@),
    {
        self.icons.len() > 0
    }

    /// How many icons are registered.
    pub fn icon_count(&self) -> (count: usize)
        ensures
            count == self@.len(),
    {
        self.icons.len()
    }

    /// Whether the icon that a lookup finds is shown; `None` where a lookup
    /// finds none.
    pub fn icon_visible(&self) -> (visible: Option<bool>)
        ensures
            visible == (if has_icon(self@) {
                Some(self@[0].visible)
            } else {
                None
            }),
    {
        if self.icons.len() > 0 {
            Some(self.icons[0].visible)
        } else {
            None
        }
    }

    /// Carries out a call that succeeds.
    pub fn perform(&mut self, call: HostCall)
        ensures
            final(self)@ == icons_after(old(self)@, call),
    {
        match call {
            HostCall::BuildIcon => {
                let icon = TrayIcon {
                    visible: true,
                    menu: menu_layout(),
                    menu_on_left_click: TRAY_MENU_ON_LEFT_CLICK,
                    handles_events: true,
                };
                self.icons.push(icon);
            },
            HostCall::CreateEntry(_) => {},
            HostCall::AssembleMenu => {},
            HostCall::AttachMenu => {
                if self.icons.len() > 0 {
                    self.icons[0].menu = menu_layout();
                }
            },
            HostCall::SetMenuOnLeftClick(enable) => {
                if self.icons.len() > 0 {
                    self.icons[0].menu_on_left_click = enable;
                }
            },
            HostCall::SetIconVisible(visible) => {
                if self.icons.len() > 0 {
                    self.icons[0].visible = visible;
                }
            },
        }
        assert(self@ =~= icons_after(old(self)@, call));
    }

    /// Runs a request to show or hide the icon against this platform, from
    /// its first call to its last. The platform answers the call that
    /// `fault` names with a failure and every other call with success.
    pub fn set_status_icon_visibility(
        &mut self,
        status_area: bool,
        visible: bool,
        fault: Option<Fault>,
    ) -> (result: Result<(), String>)
        ensures
            (outcome_view(result), final(self)@) == request_outcome(
                old(self)@,
                status_area,
                visible,
                fault_view(fault),
            ),
            old(self)@.len() <= 1 ==> final(self)@.len() <= 1,
    {
        let ghost start = self@;
        let ghost script = fault_view(fault);
        let mut request = TrayRequest::begin(status_area, visible);
        let mut made: usize = 0;
        loop
            invariant
                start == old(self)@,
                script == fault_view(fault),
                made + request@.remaining() <= 9,
                completion(request@, self@, made as nat, script) == completion(
                    begin_state(status_area, visible),
                    start,
                    0,
                    script,
                ),
            decreases request@.remaining(),
        {
            match request {
                TrayRequest::Finished(result) => {
                    proof {
                        lemma_completion(start, status_area, visible, script);
                        if start.len() <= 1 {
                            lemma_request_keeps_single_icon(start, status_area, visible, script);
                        }
                    }
                    return result;
                },
                TrayRequest::Lookup { reveal } => {
                    request = TrayRequest::after_lookup(reveal, self.has_icon());
                },
                TrayRequest::Call(call) => {
                    let outcome = self.make_call(call, made, &fault);
                    made = made + 1;
                    request = TrayRequest::after_call(call, outcome);
                },
            }
        }
    }

    /// Makes one call of a request: the call fails with the fault's message
    /// if the fault names it, and takes effect otherwise.
    fn make_call(&mut self, call: HostCall, made: usize, fault: &Option<Fault>) -> (outcome: Result<
        (),
        String,
    >)
        ensures
            outcome_view(outcome) == answer(fault_view(*fault), made as nat),
            final(self)@ == (if outcome is Ok {
                icons_after(old(self)@, call)
            } else {
                old(self)@
            }),
    {
        match fault {
            Some(fault) => {
                if fault.at == made {
                    return Err(fault.message.clone());
                }
            },
            None => {},
        }
        self.perform(call);
        Ok(())
    }
}

/// Running a request step by step ends as `request_outcome` says.
pub proof fn lemma_completion(
    icons: Seq<IconState>,
    status_area: bool,
    visible: bool,
    fault: Option<FaultState>,
)
    ensures
        completion(begin_state(status_area, visible), icons, 0, fault) == request_outcome(
            icons,
            status_area,
            visible,
            fault,
        ),
{
    reveal_with_fuel(completion, 12);
    reveal_with_fuel(icons_after_first, 10);
}

/// One invocation of the command that shows or hides the icon, together
/// with the failure, if any, that the platform answers it with.
pub struct Invocation {
    pub visible: bool,
    pub fault: Option<FaultState>,
}

/// The registered icons after the first `n` of `invocations` ran one after
/// the other.
pub open spec fn icons_after_requests(
    icons: Seq<IconState>,
    status_area: bool,
    invocations: Seq<Invocation>,
    n: nat,
) -> Seq<IconState>
    decreases n,
{
    if n == 0 || n > invocations.len() {
        icons
    } else {
        request_outcome(
            icons_after_requests(icons, status_area, invocations, (n - 1) as nat),
            status_area,
            invocations[n - 1].visible,
            invocations[n - 1].fault,
        ).1
    }
}

/// The icon as a request to show it leaves it: shown, with the standard
/// menu attached, which the primary button does not open.
pub open spec fn revealed(icon: IconState) -> IconState {
    IconState {
        visible: true,
        menu: layout(),
        menu_on_left_click: TRAY_MENU_ON_LEFT_CLICK,
        ..icon
    }
}

/// The platform registers every icon that is built, beside those that are
/// there already: it is the requests that must not build a second one.
pub proof fn lemma_platform_registers_every_build(icons: Seq<IconState>, call: HostCall)
    ensures
        icons_after(icons, call).len() == (if call == HostCall::BuildIcon {
            icons.len() + 1
        } else {
            icons.len()
        }),
{
}

/// At no point of a request is a second icon registered, and none is ever
/// removed: where there was at most one icon before the request, there is
/// at most one after each of its calls.
pub proof fn lemma_no_second_icon(icons: Seq<IconState>, status_area: bool, visible: bool, n: nat)
    requires
        icons.len() <= 1,
    ensures
        icons.len() <= icons_after_first(
            icons,
            planned_calls(status_area, visible, has_icon(icons)),
            n,
        ).len() <= 1,
{
    reveal_with_fuel(icons_after_first, 10);
}

/// A request leaves at most one icon registered, however it ends.
pub proof fn lemma_request_keeps_single_icon(
    icons: Seq<IconState>,
    status_area: bool,
    visible: bool,
    fault: Option<FaultState>,
)
    requires
        icons.len() <= 1,
    ensures
        icons.len() <= request_outcome(icons, status_area, visible, fault).1.len() <= 1,
{
    let calls = planned_calls(status_area, visible, has_icon(icons));
    lemma_no_second_icon(icons, status_area, visible, calls.len());
    if let Some(fault) = fault {
        lemma_no_second_icon(icons, status_area, visible, fault.at);
    }
}

/// For every sequence of invocations, whatever each asks for and however
/// the platform answers, at most one icon is registered after each of
/// them.
pub proof fn lemma_requests_keep_single_icon(
    icons: Seq<IconState>,
    status_area: bool,
    invocations: Seq<Invocation>,
    n: nat,
)
    requires
        icons.len() <= 1,
    ensures
        icons.len() <= icons_after_requests(icons, status_area, invocations, n).len() <= 1,
    decreases n,
{
    if n > 0 && n <= invocations.len() {
        lemma_requests_keep_single_icon(icons, status_area, invocations, (n - 1) as nat);
        lemma_request_keeps_single_icon(
            icons_after_requests(icons, status_area, invocations, (n - 1) as nat),
            status_area,
            invocations[n - 1].visible,
            invocations[n - 1].fault,
        );
    }
}

/// A request to show the icon that meets no failure succeeds. It builds the
/// icon where none is registered and reuses the registered one otherwise;
/// either way that icon is then shown and carries the standard menu.
pub proof fn lemma_show_reveals(icons: Seq<IconState>)
    ensures
        request_outcome(icons, true, true, None) == (
            Ok::<(), Seq<char>>(()),
            if has_icon(icons) {
                icons.update(0, revealed(icons[0]))
            } else {
                icons.push(built_icon())
            },
        ),
        built_icon() == revealed(built_icon()),
{
    reveal_with_fuel(icons_after_first, 10);
    let calls = planned_calls(true, true, has_icon(icons));
    let end = icons_after_first(icons, calls, calls.len());
    if has_icon(icons) {
        assert(end =~= icons.update(0, revealed(icons[0])));
    } else {
        assert(end =~= icons.push(built_icon()));
    }
}

/// Showing the icon twice in a row ends in the state that showing it once
/// ends in, and both requests succeed.
pub proof fn lemma_show_is_idempotent(icons: Seq<IconState>, status_area: bool)
    ensures
        ({
            let once = request_outcome(icons, status_area, true, None);
            let twice = request_outcome(once.1, status_area, true, None);
            &&& once.0 is Ok
            &&& twice.0 is Ok
            &&& twice.1 == once.1
            &&& status_area ==> has_icon(once.1) && once.1[0].visible
            &&& once.1.len() == (if status_area && !has_icon(icons) {
                icons.len() + 1
            } else {
                icons.len()
            })
        }),
{
    if status_area {
        lemma_show_reveals(icons);
        let once = request_outcome(icons, true, true, None).1;
        lemma_show_reveals(once);
        assert(once.update(0, revealed(once[0])) =~= once);
    } else {
        reveal_with_fuel(icons_after_first, 2);
    }
}

/// A request to hide the icon that meets no failure succeeds. It hides the
/// registered icon and keeps it, menu and all; where none is registered it
/// makes no call at all, so that no failure can reach it.
pub proof fn lemma_hide_conceals(icons: Seq<IconState>, fault: Option<FaultState>)
    ensures
        has_icon(icons) ==> request_outcome(icons, true, false, None) == (
            Ok::<(), Seq<char>>(()),
            icons.update(0, IconState { visible: false, ..icons[0] }),
        ),
        !has_icon(icons) ==> request_outcome(icons, true, false, fault) == (
            Ok::<(), Seq<char>>(()),
            icons,
        ),
{
    reveal_with_fuel(icons_after_first, 3);
}

/// Hiding the icon when it is hidden already, or when there is none,
/// succeeds and changes nothing.
pub proof fn lemma_hide_when_hidden(icons: Seq<IconState>, status_area: bool)
    requires
        has_icon(icons) ==> !icons[0].visible,
    ensures
        request_outcome(icons, status_area, false, None) == (Ok::<(), Seq<char>>(()), icons),
{
    reveal_with_fuel(icons_after_first, 3);
    if status_area && has_icon(icons) {
        lemma_hide_conceals(icons, None);
        assert(icons.update(0, IconState { visible: false, ..icons[0] }) =~= icons);
    }
}

/// Whether every registered icon is complete.
pub open spec fn all_complete(icons: Seq<IconState>) -> bool {
    forall|i: int| 0 <= i < icons.len() ==> complete(#[trigger] icons[i])
}

/// Whether the call leaves the primary button free for showing the window.
pub open spec fn keeps_primary_button(call: HostCall) -> bool {
    call matches HostCall::SetMenuOnLeftClick(enable) ==> enable == TRAY_MENU_ON_LEFT_CLICK
}

/// A call that leaves the primary button alone takes nothing away from a
/// complete icon, and what it registers is complete.
pub proof fn lemma_call_keeps_complete(icons: Seq<IconState>, call: HostCall)
    requires
        all_complete(icons),
        keeps_primary_button(call),
    ensures
        all_complete(icons_after(icons, call)),
{
    let after = icons_after(icons, call);
    assert forall|i: int| 0 <= i < after.len() implies complete(#[trigger] after[i]) by {
        if i < icons.len() {
            assert(complete(icons[i]));
        }
    }
}

/// No call that a request plans gives the primary button to the menu.
pub proof fn lemma_planned_calls_keep_primary_button(
    status_area: bool,
    visible: bool,
    found: bool,
    i: int,
)
    requires
        0 <= i < planned_calls(status_area, visible, found).len(),
    ensures
        keeps_primary_button(planned_calls(status_area, visible, found)[i]),
{
}

/// No icon is ever registered half made. An icon is registered with its
/// menu and its handlers or not at all, and no call of a request takes
/// anything away from a complete icon.
pub proof fn lemma_icons_stay_complete_midway(
    icons: Seq<IconState>,
    status_area: bool,
    visible: bool,
    n: nat,
)
    requires
        all_complete(icons),
    ensures
        all_complete(
            icons_after_first(icons, planned_calls(status_area, visible, has_icon(icons)), n),
        ),
    decreases n,
{
    let calls = planned_calls(status_area, visible, has_icon(icons));
    if n > 0 && n <= calls.len() {
        lemma_icons_stay_complete_midway(icons, status_area, visible, (n - 1) as nat);
        lemma_planned_calls_keep_primary_button(status_area, visible, has_icon(icons), n - 1);
        lemma_call_keeps_complete(icons_after_first(icons, calls, (n - 1) as nat), calls[n - 1]);
    }
}

/// However a request ends, every icon registered after it is complete if
/// every icon registered before it was.
pub proof fn lemma_icons_stay_complete(
    icons: Seq<IconState>,
    status_area: bool,
    visible: bool,
    fault: Option<FaultState>,
)
    requires
        all_complete(icons),
    ensures
        all_complete(request_outcome(icons, status_area, visible, fault).1),
{
    let calls = planned_calls(status_area, visible, has_icon(icons));
    lemma_icons_stay_complete_midway(icons, status_area, visible, calls.len());
    if let Some(fault) = fault {
        lemma_icons_stay_complete_midway(icons, status_area, visible, fault.at);
    }
}

/// On a platform without a status area a request makes no call, succeeds
/// and changes nothing.
pub proof fn lemma_no_status_area(icons: Seq<IconState>, visible: bool, fault: Option<FaultState>)
    ensures
        request_outcome(icons, false, visible, fault) == (Ok::<(), Seq<char>>(()), icons),
{
    reveal_with_fuel(icons_after_first, 2);
}

/// A request that fails returns the platform's message, and an icon whose
/// construction failed is not registered: a request that fails at or
/// before the construction registers nothing.
pub proof fn lemma_failed_build_registers_nothing(icons: Seq<IconState>, fault: FaultState)
    requires
        !has_icon(icons),
        fault.at <= 5,
    ensures
        request_outcome(icons, true, true, Some(fault)) == (
            Err::<(), Seq<char>>(fault.message),
            icons,
        ),
{
    reveal_with_fuel(icons_after_first, 7);
}

} // verus!
