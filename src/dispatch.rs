use vstd::prelude::*;
use crate::bridged::{bridged_get_command, bridged_set_command, helper_program, set_script, HelperCommand};
use crate::context::{Backend, EnvironmentContext};
use crate::error::{ClipboardError, ErrorKind};
use crate::remote::{base64_of, osc52_frame, osc52_sequence, remote_unsupported};

verus! {

/// The one backend operation that sets the clipboard in a given environment.
pub enum SetAction {
    /// Launch this host helper and wait for it.
    RunHelper(HelperCommand),
    /// Write these characters to standard output.
    WriteTerminal(String),
    /// Place this text on the platform clipboard (see `native_set_text`).
    WriteNative(String),
}

/// The one backend operation that reads the clipboard in a given environment.
pub enum GetAction {
    /// Launch this host helper, capture its output, and trim it.
    RunHelper(HelperCommand),
    /// Nothing to run: the backend cannot read, with this error.
    Fail(ClipboardError),
    /// Read the platform clipboard (see `native_get_text`).
    ReadNative,
}

/// The backend that carries out a set action.
pub open spec fn set_action_backend(a: SetAction) -> Backend {
    match a {
        SetAction::RunHelper(_) => Backend::Bridged,
        SetAction::WriteTerminal(_) => Backend::Remote,
        SetAction::WriteNative(_) => Backend::Native,
    }
}

/// The backend that carries out a get action.
pub open spec fn get_action_backend(a: GetAction) -> Backend {
    match a {
        GetAction::RunHelper(_) => Backend::Bridged,
        GetAction::Fail(e) => e.backend,
        GetAction::ReadNative => Backend::Native,
    }
}

/// `a` is the set operation for `text` in the environment `ctx`.
pub open spec fn is_set_plan(ctx: EnvironmentContext, text: Seq<char>, a: SetAction) -> bool {
    match ctx.selected() {
        Backend::Bridged => a matches SetAction::RunHelper(c) && c.program@ == helper_program()
            && c.args@.len() == 3 && c.args@[0]@ == "-NoProfile"@ && c.args@[1]@ == "-Command"@
            && c.args@[2]@ == set_script(text),
        Backend::Remote => a matches SetAction::WriteTerminal(s) && s@ == osc52_frame(base64_of(text)),
        Backend::Native => a matches SetAction::WriteNative(t) && t@ == text,
    }
}

/// `a` is the get operation in the environment `ctx`.
pub open spec fn is_get_plan(ctx: EnvironmentContext, a: GetAction) -> bool {
    match ctx.selected() {
        Backend::Bridged => a matches GetAction::RunHelper(c) && c.program@ == helper_program()
            && c.args@.len() == 1 && c.args@[0]@ == "get-clipboard"@,
        Backend::Remote => a matches GetAction::Fail(e) && e.backend == Backend::Remote
            && e.kind == ErrorKind::UnsupportedOperation,
        Backend::Native => a is ReadNative,
    }
}

/// Classifies the environment once and returns the single operation of the
/// selected backend that sets the clipboard to `text`.
pub fn plan_set(ctx: &EnvironmentContext, text: &str) -> (r: SetAction)
    ensures
        is_set_plan(*ctx, text@, r),
{
    match ctx.classify() {
        Backend::Bridged => SetAction::RunHelper(bridged_set_command(text)),
        Backend::Remote => SetAction::WriteTerminal(osc52_sequence(text)),
        Backend::Native => SetAction::WriteNative(String::from_str(text)),
    }
}

/// Classifies the environment once and returns the single operation of the
/// selected backend that reads the clipboard.
pub fn plan_get(ctx: &EnvironmentContext) -> (r: GetAction)
    ensures
        is_get_plan(*ctx, r),
{
    match ctx.classify() {
        Backend::Bridged => GetAction::RunHelper(bridged_get_command()),
        Backend::Remote => GetAction::Fail(remote_unsupported()),
        Backend::Native => GetAction::ReadNative,
    }
}

/// Each call is routed to exactly one backend, the classified one: whatever
/// set or get operation is planned for an environment belongs to the backend
/// that classification selects, and to no other.
pub proof fn dispatch_uses_the_selected_backend(
    ctx: EnvironmentContext,
    text: Seq<char>,
    s: SetAction,
    g: GetAction,
)
    requires
        is_set_plan(ctx, text, s),
        is_get_plan(ctx, g),
    ensures
        set_action_backend(s) == ctx.selected(),
        get_action_backend(g) == ctx.selected(),
{
}

/// A remote session can never read the clipboard: the planned get is the
/// `UnsupportedOperation` failure, whatever was set before.
pub proof fn remote_get_is_unsupported(ctx: EnvironmentContext, g: GetAction)
    requires
        ctx.selected() == Backend::Remote,
        is_get_plan(ctx, g),
    ensures
        g matches GetAction::Fail(e) && e.kind == ErrorKind::UnsupportedOperation
            && e.backend == Backend::Remote,
{
}

} // verus!
