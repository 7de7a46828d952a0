//! Clipboard access that picks, on every call, between the platform
//! clipboard, the OSC 52 terminal sequence of a remote session, and the
//! Windows host's helper when running under WSL.
//!
//! The library decides and computes; the effects that need processes or the
//! terminal are carried out by the caller with the values computed here.

mod bridged;
mod context;
mod dispatch;
mod error;
mod native;
mod remote;

pub use bridged::{
    bridged_get_command, bridged_get_result, bridged_set_command, bridged_set_result, escape_quotes,
    escape_single_quotes, escaped_char, escaped_text_reads_back, is_quote_char,
    is_single_quote, read_quoted, get_failure_kind, helper_program, set_failure_kind, set_script, trimmed,
    HelperCommand, HelperFailure, HelperStage,
};
pub use context::{classification_is_total_and_ordered, classify_spec, Backend, EnvironmentContext};
pub use dispatch::{
    dispatch_uses_the_selected_backend, get_action_backend, is_get_plan, is_set_plan, plan_get, plan_set,
    remote_get_is_unsupported, set_action_backend, GetAction, SetAction,
};
pub use error::{ClipboardError, ErrorKind};
pub use native::{
    native_failure, native_failure_kind, native_failure_prefix, native_get_result, native_get_text, native_set_result,
    native_set_text, NativeStep,
};
pub use remote::{
    base64_of, frame_osc52, is_base64_char, osc52_frame, osc52_prefix, osc52_sequence, osc52_terminator, remote_get_text,
    remote_unsupported,
};
