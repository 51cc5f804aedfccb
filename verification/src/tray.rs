//! The tray controller: how a request to show or hide the status-area icon
//! unfolds into calls on the platform.
//!
//! The controller never touches the platform itself. It names the next
//! call, the caller makes it and reports how it went, and the controller
//! names the call after that, until the request is finished. A call that
//! fails finishes the request with the platform's message, and none of the
//! calls that would have followed is made.

use crate::menu::MenuEntry;
use vstd::prelude::*;

verus! {

/// Logical identifier of the one status-area icon.
pub const TRAY_ID: &'static str = "status";

/// Text shown when the pointer rests on the icon.
pub const TRAY_TOOLTIP: &'static str = "Konnyaku Translator";

/// Whether the icon image is a template that the platform tints.
pub const TRAY_ICON_AS_TEMPLATE: bool = true;

/// Whether a click with the primary button opens the menu. It does not: the
/// primary button is reserved for showing the window.
pub const TRAY_MENU_ON_LEFT_CLICK: bool = false;

/// A call on the platform that either succeeds or fails with a message.
#[derive(Clone, Copy, PartialEq, Eq, Debug, Structural)]
pub enum HostCall {
    /// Create the given menu entry.
    CreateEntry(MenuEntry),
    /// Put the created entries together as a menu, in layout order.
    AssembleMenu,
    /// Attach the assembled menu to the icon that the lookup found.
    AttachMenu,
    /// Set whether the primary button opens the menu of the icon found.
    SetMenuOnLeftClick(bool),
    /// Show or hide the icon found or built.
    SetIconVisible(bool),
    /// Build the icon and register it under its identifier, with the
    /// assembled menu, the tooltip, the default image where there is one,
    /// and the handlers for its events.
    BuildIcon,
}

/// The progress of one request to show or hide the icon.
#[derive(PartialEq, Eq, Debug)]
pub enum TrayRequest {
    /// The given call is to be made next.
    Call(HostCall),
    /// The platform is to be asked next whether an icon is registered under
    /// the identifier. `reveal` tells whether the request shows the icon.
    Lookup { reveal: bool },
    /// Nothing is left to do; this is what the request returns.
    Finished(Result<(), String>),
}

/// A request as contracts see it.
pub enum RequestState {
    Call(HostCall),
    Lookup { reveal: bool },
    Done,
    Failed(Seq<char>),
}

/// An outcome as contracts see it: the message by its characters.
pub open spec fn outcome_view(outcome: Result<(), String>) -> Result<(), Seq<char>> {
    match outcome {
        Ok(_) => Ok(()),
        Err(message) => Err(message@),
    }
}

impl View for TrayRequest {
    type V = RequestState;

    open spec fn view(&self) -> RequestState {
        match *self {
            TrayRequest::Call(call) => RequestState::Call(call),
            TrayRequest::Lookup { reveal } => RequestState::Lookup { reveal },
            TrayRequest::Finished(Ok(_)) => RequestState::Done,
            TrayRequest::Finished(Err(message)) => RequestState::Failed(message@),
        }
    }
}

/// Where a request starts. Without a status area there is nothing to do.
/// Showing starts with the menu; hiding starts with the lookup.
pub open spec fn begin_state(status_area: bool, visible: bool) -> RequestState {
    if !status_area {
        RequestState::Done
    } else if visible {
        RequestState::Call(HostCall::CreateEntry(MenuEntry::Show))
    } else {
        RequestState::Lookup { reveal: false }
    }
}

/// What follows a call that succeeded.
pub open spec fn state_after_success(call: HostCall) -> RequestState {
    match call {
        HostCall::CreateEntry(MenuEntry::Show) => RequestState::Call(
            HostCall::CreateEntry(MenuEntry::Hide),
        ),
        HostCall::CreateEntry(MenuEntry::Hide) => RequestState::Call(
            HostCall::CreateEntry(MenuEntry::Quit),
        ),
        HostCall::CreateEntry(MenuEntry::Quit) => RequestState::Call(
            HostCall::CreateEntry(MenuEntry::Separator),
        ),
        HostCall::CreateEntry(MenuEntry::Separator) => RequestState::Call(HostCall::AssembleMenu),
        HostCall::AssembleMenu => RequestState::Lookup { reveal: true },
        HostCall::AttachMenu => RequestState::Call(
            HostCall::SetMenuOnLeftClick(TRAY_MENU_ON_LEFT_CLICK),
        ),
        HostCall::SetMenuOnLeftClick(_) => RequestState::Call(HostCall::SetIconVisible(true)),
        HostCall::BuildIcon => RequestState::Call(HostCall::SetIconVisible(true)),
        HostCall::SetIconVisible(_) => RequestState::Done,
    }
}

/// What follows a call: its failure ends the request with the message.
pub open spec fn state_after_call(call: HostCall, outcome: Result<(), Seq<char>>) -> RequestState {
    match outcome {
        Ok(_) => state_after_success(call),
        Err(message) => RequestState::Failed(message),
    }
}

/// What follows the lookup. An icon that exists is reused and never built
/// again; hiding an icon that does not exist is nothing.
pub open spec fn state_after_lookup(reveal: bool, found: bool) -> RequestState {
    if reveal {
        if found {
            RequestState::Call(HostCall::AttachMenu)
        } else {
            RequestState::Call(HostCall::BuildIcon)
        }
    } else if found {
        RequestState::Call(HostCall::SetIconVisible(false))
    } else {
        RequestState::Done
    }
}

impl RequestState {
    pub open spec fn finished(self) -> bool {
        self is Done || self is Failed
    }

    /// An upper bound on the number of steps before the request finishes.
    pub open spec fn remaining(self) -> nat {
        match self {
            RequestState::Done => 0,
            RequestState::Failed(_) => 0,
            RequestState::Call(HostCall::SetIconVisible(_)) => 1,
            RequestState::Call(HostCall::SetMenuOnLeftClick(_)) => 2,
            RequestState::Call(HostCall::BuildIcon) => 2,
            RequestState::Call(HostCall::AttachMenu) => 3,
            RequestState::Lookup { reveal } => if reveal {
                4
            } else {
                2
            },
            RequestState::Call(HostCall::AssembleMenu) => 5,
            RequestState::Call(HostCall::CreateEntry(MenuEntry::Separator)) => 6,
            RequestState::Call(HostCall::CreateEntry(MenuEntry::Quit)) => 7,
            RequestState::Call(HostCall::CreateEntry(MenuEntry::Hide)) => 8,
            RequestState::Call(HostCall::CreateEntry(MenuEntry::Show)) => 9,
        }
    }
}

impl TrayRequest {
    /// Starts a request to make the icon visible or not, on a platform that
    /// has a status area or has none.
    pub fn begin(status_area: bool, visible: bool) -> (request: TrayRequest)
        ensures
            request@ == begin_state(status_area, visible),
    {
        if !status_area {
            TrayRequest::Finished(Ok(()))
        } else if visible {
            TrayRequest::Call(HostCall::CreateEntry(MenuEntry::Show))
        } else {
            TrayRequest::Lookup { reveal: false }
        }
    }

    /// The request after `call` was made and ended in `outcome`.
    pub fn after_call(call: HostCall, outcome: Result<(), String>) -> (request: TrayRequest)
        ensures
            request@ == state_after_call(call, outcome_view(outcome)),
    {
        match outcome {
            Err(message) => TrayRequest::Finished(Err(message)),
            Ok(_) => match call {
                HostCall::CreateEntry(MenuEntry::Show) => TrayRequest::Call(
                    HostCall::CreateEntry(MenuEntry::Hide),
                ),
                HostCall::CreateEntry(MenuEntry::Hide) => TrayRequest::Call(
                    HostCall::CreateEntry(MenuEntry::Quit),
                ),
                HostCall::CreateEntry(MenuEntry::Quit) => TrayRequest::Call(
                    HostCall::CreateEntry(MenuEntry::Separator),
                ),
                HostCall::CreateEntry(MenuEntry::Separator) => TrayRequest::Call(
                    HostCall::AssembleMenu,
                ),
                HostCall::AssembleMenu => TrayRequest::Lookup { reveal: true },
                HostCall::AttachMenu => TrayRequest::Call(
                    HostCall::SetMenuOnLeftClick(TRAY_MENU_ON_LEFT_CLICK),
                ),
                HostCall::SetMenuOnLeftClick(_) => TrayRequest::Call(HostCall::SetIconVisible(true)),
                HostCall::BuildIcon => TrayRequest::Call(HostCall::SetIconVisible(true)),
                HostCall::SetIconVisible(_) => TrayRequest::Finished(Ok(())),
            },
        }
    }

    /// The request after the lookup told whether the icon exists.
    pub fn after_lookup(reveal: bool, found: bool) -> (request: TrayRequest)
        ensures
            request@ == state_after_lookup(reveal, found),
    {
        if reveal {
            if found {
                TrayRequest::Call(HostCall::AttachMenu)
            } else {
                TrayRequest::Call(HostCall::BuildIcon)
            }
        } else if found {
            TrayRequest::Call(HostCall::SetIconVisible(false))
        } else {
            TrayRequest::Finished(Ok(()))
        }
    }

    /// Whether nothing is left to do.
    pub fn is_finished(&self) -> (finished: bool)
        ensures
            finished == self@.finished(),
    {
        match self {
            TrayRequest::Finished(_) => true,
            _ => false,
        }
    }

    /// What the request returns once it is finished, `None` before that.
    pub fn into_result(self) -> (result: Option<Result<(), String>>)
        ensures
            match result {
                Some(outcome) => self@.finished() && self == TrayRequest::Finished(outcome),
                None => !self@.finished(),
            },
    {
        match self {
            TrayRequest::Finished(outcome) => Some(outcome),
            _ => None,
        }
    }
}

/// Every step brings a request nearer to its end, and a request is never
/// more than nine steps from it: no request runs on for ever, however the
/// platform answers.
pub proof fn lemma_request_progress(
    call: HostCall,
    outcome: Result<(), Seq<char>>,
    reveal: bool,
    found: bool,
    status_area: bool,
    visible: bool,
)
    ensures
        state_after_call(call, outcome).remaining() < RequestState::Call(call).remaining(),
        state_after_lookup(reveal, found).remaining() < (RequestState::Lookup {
            reveal,
        }).remaining(),
        begin_state(status_area, visible).remaining() <= 9,
{
}

/// The icon is built at one point only: right after a lookup in a request
/// to show it found none. No request starts with the construction, and no
/// call leads to it, whatever its outcome.
pub proof fn lemma_build_follows_missing_lookup(
    call: HostCall,
    outcome: Result<(), Seq<char>>,
    reveal: bool,
    found: bool,
    status_area: bool,
    visible: bool,
)
    ensures
        state_after_lookup(reveal, found) == RequestState::Call(HostCall::BuildIcon) <==> reveal
            && !found,
        state_after_call(call, outcome) != RequestState::Call(HostCall::BuildIcon),
        begin_state(status_area, visible) != RequestState::Call(HostCall::BuildIcon),
{
}

} // verus!
