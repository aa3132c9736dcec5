//! Laws of the command layer, stated over the abstract step function
//! [`spec_apply`] that every exec command is proved to implement.

use vstd::prelude::*;

use crate::registry::WindowState;
use crate::window_controls::{
    spec_apply, spec_resolve, default_label, CommandError, CommandReply, WindowCommand,
};

verus! {

/// A command invoked with a label that names no open window reports
/// `WindowNotFound` — whichever of the five operations was requested —
/// and leaves the windows as they were.
pub proof fn law_unknown_label(
    cmd: WindowCommand,
    label: Seq<char>,
    m: Map<Seq<char>, WindowState>,
)
    requires
        !m.contains_key(label),
    ensures
        spec_apply(cmd, label, m) == (
            m,
            Err::<CommandReply, CommandError>(CommandError::WindowNotFound),
        ),
{
}

/// Invoking a command with no label is the same as invoking it with
/// the label `"main"`: the two calls resolve to the same target and
/// take the very same step.
pub proof fn law_default_label(cmd: WindowCommand, m: Map<Seq<char>, WindowState>)
    ensures
        spec_resolve(None) == spec_resolve(Some(default_label())),
        spec_apply(cmd, spec_resolve(None), m) == spec_apply(
            cmd,
            spec_resolve(Some(default_label())),
            m,
        ),
{
}

/// After a maximize that succeeded, the maximized-state query on the
/// same label reports `true`.
pub proof fn law_query_after_maximize(label: Seq<char>, m: Map<Seq<char>, WindowState>)
    requires
        spec_apply(WindowCommand::Maximize, label, m).1 is Ok,
    ensures
        spec_apply(
            WindowCommand::QueryMaximized,
            label,
            spec_apply(WindowCommand::Maximize, label, m).0,
        ).1 == Ok::<CommandReply, CommandError>(CommandReply::MaximizedFlag(true)),
{
}

/// After a restore from the maximized state that succeeded, the
/// maximized-state query on the same label reports `false`.
pub proof fn law_query_after_unmaximize(label: Seq<char>, m: Map<Seq<char>, WindowState>)
    requires
        spec_apply(WindowCommand::Unmaximize, label, m).1 is Ok,
    ensures
        spec_apply(
            WindowCommand::QueryMaximized,
            label,
            spec_apply(WindowCommand::Unmaximize, label, m).0,
        ).1 == Ok::<CommandReply, CommandError>(CommandReply::MaximizedFlag(false)),
{
}

/// Once a close of `label` has succeeded, any further command on that
/// label reports `WindowNotFound` and changes nothing: the window no
/// longer exists.
pub proof fn law_command_after_close(
    cmd: WindowCommand,
    label: Seq<char>,
    m: Map<Seq<char>, WindowState>,
)
    requires
        spec_apply(WindowCommand::Close, label, m).1 is Ok,
    ensures
        ({
            let closed = spec_apply(WindowCommand::Close, label, m).0;
            spec_apply(cmd, label, closed) == (
                closed,
                Err::<CommandReply, CommandError>(CommandError::WindowNotFound),
            )
        }),
{
}

/// Commands on two different labels do not interfere: each one's reply
/// is the same whether or not the other ran first, and the registry
/// they leave behind does not depend on the order the two ran in.
pub proof fn law_independent_labels(
    cmd1: WindowCommand,
    cmd2: WindowCommand,
    label1: Seq<char>,
    label2: Seq<char>,
    m: Map<Seq<char>, WindowState>,
)
    requires
        label1 != label2,
    ensures
        spec_apply(cmd2, label2, spec_apply(cmd1, label1, m).0).1 == spec_apply(cmd2, label2, m).1,
        spec_apply(cmd1, label1, spec_apply(cmd2, label2, m).0).1 == spec_apply(cmd1, label1, m).1,
        spec_apply(cmd2, label2, spec_apply(cmd1, label1, m).0).0 == spec_apply(
            cmd1,
            label1,
            spec_apply(cmd2, label2, m).0,
        ).0,
{
    let m1 = spec_apply(cmd1, label1, m).0;
    let m2 = spec_apply(cmd2, label2, m).0;
    assert(m1.contains_key(label2) == m.contains_key(label2));
    assert(m2.contains_key(label1) == m.contains_key(label1));
    assert(m.contains_key(label2) ==> m1[label2] == m[label2]);
    assert(m.contains_key(label1) ==> m2[label1] == m[label1]);
    assert(spec_apply(cmd2, label2, m1).0 =~= spec_apply(cmd1, label1, m2).0);
}

} // verus!
