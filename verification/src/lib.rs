//! Verified core of a small desktop-application shim.
//!
//! The library models the application's window registry and proves the
//! behaviour of the remote-invokable commands that a front end uses to
//! drive its native windows: minimize, maximize, restore, close, and a
//! maximized-state query, plus a single greeting command.  The host
//! shell performs the actual native calls; everything it has to decide
//! (label resolution, window lookup, the state transition, the error
//! reported) is implemented and specified here.

use vstd::prelude::*;
use vstd::string::StringExecFns;

pub mod laws;
pub mod registry;
pub mod window_controls;

pub use crate::registry::{Window, WindowRegistry, WindowState};
pub use crate::window_controls::{
    apply_command, close_window, is_window_maximized, maximize_window, minimize_window,
    resolve_label, unmaximize_window, CommandError, CommandReply, WindowCommand,
};

verus! {

/// The exact text returned for a given name: a fixed salutation around
/// the caller-supplied name.
pub open spec fn spec_greeting(name: Seq<char>) -> Seq<char> {
    "Hello, "@ + name + "! You've been greeted from Rust!"@
}

/// Builds the greeting for `name`.  Pure: the result depends on `name`
/// alone and is pinned exactly by [`spec_greeting`].
pub fn greet(name: &str) -> (r: String)
    ensures
        r@ == spec_greeting(name@),
{
    let mut r = String::from_str("Hello, ");
    r.append(name);
    r.append("! You've been greeted from Rust!");
    r
}

} // verus!
