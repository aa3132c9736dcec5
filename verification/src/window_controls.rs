//! The remote-invokable window commands.
//!
//! Each command names a target window by an optional string label —
//! `"main"`, the primary window, when the label is omitted — looks the
//! window up in the registry, and applies one native state transition:
//! minimize, maximize, restore, close, or a read of the maximized
//! flag.  The only lookup failure is a missing window; a failure of
//! the platform call itself is carried through verbatim as text.

use vstd::prelude::*;
use vstd::string::StringExecFns;

use crate::registry::{WindowRegistry, WindowState};

verus! {

/// The two ways a window command fails: no open window carries the
/// resolved label, or the platform rejected the native call and its
/// message is passed through.
#[derive(Clone, Debug, PartialEq, Eq)]
pub enum CommandError {
    WindowNotFound,
    Platform(String),
}

impl CommandError {
    /// The error text handed back across the command boundary: a fixed
    /// message for a missing window, the platform's own message
    /// verbatim otherwise.
    pub open spec fn spec_message(self) -> Seq<char> {
        match self {
            CommandError::WindowNotFound => "Window not found"@,
            CommandError::Platform(m) => m@,
        }
    }

    /// The error text as an owned string.
    pub fn message(&self) -> (r: String)
        ensures
            r@ == self.spec_message(),
    {
        match self {
            CommandError::WindowNotFound => String::from_str("Window not found"),
            CommandError::Platform(m) => m.clone(),
        }
    }
}

/// The label a command falls back to when none is given: the primary
/// window's label, `"main"`.
pub open spec fn default_label() -> Seq<char> {
    "main"@
}

/// The label a command call targets: the one given, or the default.
pub open spec fn spec_resolve(label: Option<Seq<char>>) -> Seq<char> {
    match label {
        Some(l) => l,
        None => default_label(),
    }
}

/// The abstract value of an optional exec-level label.
pub open spec fn opt_label_view(label: Option<String>) -> Option<Seq<char>> {
    match label {
        Some(l) => Some(l@),
        None => None,
    }
}

/// Resolves the optional label of a command call to the label of the
/// window it targets: the given one, or `"main"` when none was given.
pub fn resolve_label(window_label: Option<String>) -> (r: String)
    ensures
        r@ == spec_resolve(opt_label_view(window_label)),
{
    match window_label {
        Some(l) => l,
        None => String::from_str("main"),
    }
}

/// The five window commands a front end can invoke by name.
#[derive(Clone, Copy, Debug, PartialEq, Eq, Structural)]
pub enum WindowCommand {
    Minimize,
    Maximize,
    Unmaximize,
    Close,
    QueryMaximized,
}

/// What a command yields on success: nothing for the state-changing
/// operations, the maximized flag for the query.
#[derive(Clone, Copy, Debug, PartialEq, Eq, Structural)]
pub enum CommandReply {
    Done,
    MaximizedFlag(bool),
}

/// One step of the command layer over the abstract registry: given the
/// command, the resolved target label and the map of open windows
/// before the call, it yields the map afterwards and the reply.  A
/// label outside the map is the single failure; each transition
/// rewrites the target's entry, closing removes it, and the query
/// reads the maximized flag without touching anything.
pub open spec fn spec_apply(
    cmd: WindowCommand,
    label: Seq<char>,
    m: Map<Seq<char>, WindowState>,
) -> (Map<Seq<char>, WindowState>, Result<CommandReply, CommandError>) {
    if !m.contains_key(label) {
        (m, Err(CommandError::WindowNotFound))
    } else {
        match cmd {
            WindowCommand::Minimize => (
                m.insert(label, WindowState::Minimized),
                Ok(CommandReply::Done),
            ),
            WindowCommand::Maximize => (
                m.insert(label, WindowState::Maximized),
                Ok(CommandReply::Done),
            ),
            WindowCommand::Unmaximize => (m.insert(label, WindowState::Normal), Ok(CommandReply::Done)),
            WindowCommand::Close => (m.remove(label), Ok(CommandReply::Done)),
            WindowCommand::QueryMaximized => (
                m,
                Ok(CommandReply::MaximizedFlag(m[label] == WindowState::Maximized)),
            ),
        }
    }
}

/// The dispatch step behind the named commands: runs `cmd` against the
/// live registry exactly as [`spec_apply`] describes on the abstract
/// map.
pub fn apply_command(
    cmd: WindowCommand,
    window_label: Option<String>,
    registry: &mut WindowRegistry,
) -> (r: Result<CommandReply, CommandError>)
    requires
        old(registry).wf(),
    ensures
        final(registry).wf(),
        ({
            let step = spec_apply(cmd, spec_resolve(opt_label_view(window_label)), old(registry)@);
            final(registry)@ == step.0 && r == step.1
        }),
{
    let label = resolve_label(window_label);
    match cmd {
        WindowCommand::Minimize => {
            if registry.set_state(&label, WindowState::Minimized) {
                Ok(CommandReply::Done)
            } else {
                Err(CommandError::WindowNotFound)
            }
        }
        WindowCommand::Maximize => {
            if registry.set_state(&label, WindowState::Maximized) {
                Ok(CommandReply::Done)
            } else {
                Err(CommandError::WindowNotFound)
            }
        }
        WindowCommand::Unmaximize => {
            if registry.set_state(&label, WindowState::Normal) {
                Ok(CommandReply::Done)
            } else {
                Err(CommandError::WindowNotFound)
            }
        }
        WindowCommand::Close => {
            if registry.remove_window(&label) {
                Ok(CommandReply::Done)
            } else {
                Err(CommandError::WindowNotFound)
            }
        }
        WindowCommand::QueryMaximized => {
            match registry.get_state(&label) {
                Some(st) => Ok(CommandReply::MaximizedFlag(st == WindowState::Maximized)),
                None => Err(CommandError::WindowNotFound),
            }
        }
    }
}

/// Minimizes the window named by `window_label`, or the main window
/// when no label is given.  Fails exactly when no such window is open.
pub fn minimize_window(
    window_label: Option<String>,
    registry: &mut WindowRegistry,
) -> (r: Result<(), CommandError>)
    requires
        old(registry).wf(),
    ensures
        final(registry).wf(),
        ({
            let label = spec_resolve(opt_label_view(window_label));
            if old(registry)@.contains_key(label) {
                r == Ok::<(), CommandError>(()) && final(registry)@ == old(registry)@.insert(
                    label,
                    WindowState::Minimized,
                )
            } else {
                r == Err::<(), CommandError>(CommandError::WindowNotFound) && final(registry)@
                    == old(registry)@
            }
        }),
{
    match apply_command(WindowCommand::Minimize, window_label, registry) {
        Ok(_) => Ok(()),
        Err(e) => Err(e),
    }
}

/// Maximizes the window named by `window_label`, or the main window
/// when no label is given.  Fails exactly when no such window is open.
pub fn maximize_window(
    window_label: Option<String>,
    registry: &mut WindowRegistry,
) -> (r: Result<(), CommandError>)
    requires
        old(registry).wf(),
    ensures
        final(registry).wf(),
        ({
            let label = spec_resolve(opt_label_view(window_label));
            if old(registry)@.contains_key(label) {
                r == Ok::<(), CommandError>(()) && final(registry)@ == old(registry)@.insert(
                    label,
                    WindowState::Maximized,
                )
            } else {
                r == Err::<(), CommandError>(CommandError::WindowNotFound) && final(registry)@
                    == old(registry)@
            }
        }),
{
    match apply_command(WindowCommand::Maximize, window_label, registry) {
        Ok(_) => Ok(()),
        Err(e) => Err(e),
    }
}

/// Restores the window named by `window_label` from the maximized
/// state, or the main window when no label is given.  Fails exactly
/// when no such window is open.
pub fn unmaximize_window(
    window_label: Option<String>,
    registry: &mut WindowRegistry,
) -> (r: Result<(), CommandError>)
    requires
        old(registry).wf(),
    ensures
        final(registry).wf(),
        ({
            let label = spec_resolve(opt_label_view(window_label));
            if old(registry)@.contains_key(label) {
                r == Ok::<(), CommandError>(()) && final(registry)@ == old(registry)@.insert(
                    label,
                    WindowState::Normal,
                )
            } else {
                r == Err::<(), CommandError>(CommandError::WindowNotFound) && final(registry)@
                    == old(registry)@
            }
        }),
{
    match apply_command(WindowCommand::Unmaximize, window_label, registry) {
        Ok(_) => Ok(()),
        Err(e) => Err(e),
    }
}

/// Closes the window named by `window_label`, or the main window when
/// no label is given: the window leaves the registry.  Fails exactly
/// when no such window is open.
pub fn close_window(
    window_label: Option<String>,
    registry: &mut WindowRegistry,
) -> (r: Result<(), CommandError>)
    requires
        old(registry).wf(),
    ensures
        final(registry).wf(),
        ({
            let label = spec_resolve(opt_label_view(window_label));
            if old(registry)@.contains_key(label) {
                r == Ok::<(), CommandError>(()) && final(registry)@ == old(registry)@.remove(label)
            } else {
                r == Err::<(), CommandError>(CommandError::WindowNotFound) && final(registry)@
                    == old(registry)@
            }
        }),
{
    match apply_command(WindowCommand::Close, window_label, registry) {
        Ok(_) => Ok(()),
        Err(e) => Err(e),
    }
}

/// Reports whether the window named by `window_label` — the main
/// window when no label is given — is currently maximized.  Fails
/// exactly when no such window is open.
pub fn is_window_maximized(
    window_label: Option<String>,
    registry: &WindowRegistry,
) -> (r: Result<bool, CommandError>)
    ensures
        ({
            let label = spec_resolve(opt_label_view(window_label));
            if registry@.contains_key(label) {
                r == Ok::<bool, CommandError>(registry@[label] == WindowState::Maximized)
            } else {
                r == Err::<bool, CommandError>(CommandError::WindowNotFound)
            }
        }),
{
    let label = resolve_label(window_label);
    match registry.get_state(&label) {
        Some(st) => Ok(st == WindowState::Maximized),
        None => Err(CommandError::WindowNotFound),
    }
}

} // verus!
