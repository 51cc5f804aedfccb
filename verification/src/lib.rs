//! The native side of a desktop application shell: the main window's
//! life cycle, the status-area icon with its menu, and the policy that
//! decides what a close request does.
//!
//! The library decides and the caller acts. Every function here maps an
//! event or a command to the requests to make of the platform, or, for the
//! status-area icon, to the next call and then, from its outcome, to the
//! one after. `shell` and `host` hold a model of the platform on which the
//! same decisions run to their end, and the properties proved of them.

pub mod effect;
pub mod greeting;
pub mod host;
pub mod lifecycle;
pub mod menu;
pub mod shell;
pub mod tray;
