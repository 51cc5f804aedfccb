//! Requests that the shell makes of the platform and whose outcome it never
//! inspects: the platform carries them out, or silently does nothing when
//! the main window does not exist.

use vstd::prelude::*;

verus! {

/// Exit status of every termination that the shell asks for.
pub const EXIT_SUCCESS: i32 = 0;

/// A single request to the platform, in the order in which it must be
/// carried out when several are returned together.
#[derive(Clone, Copy, PartialEq, Eq, Debug, Structural)]
pub enum Effect {
    /// Make the main window visible.
    ShowWindow,
    /// Give the main window the input focus.
    FocusWindow,
    /// Make the main window invisible; the window itself is kept.
    HideWindow,
    /// Veto the platform's default reaction to a close request, which would
    /// destroy the window.
    PreventClose,
    /// Open the debugging panel of the main window.
    OpenDevtools,
    /// Close the debugging panel of the main window.
    CloseDevtools,
    /// Terminate the process at once with the given status.
    Exit(i32),
}

} // verus!
