use vstd::prelude::*;
use crate::context::Backend;
use crate::error::{ClipboardError, ErrorKind};

verus! {

/// arboard's handle to the platform clipboard, carried through opaque.
#[verifier::external_type_specification]
#[verifier::external_body]
pub struct ExClipboard(arboard::Clipboard);

/// arboard's error type, carried through opaque and described as text.
#[verifier::external_type_specification]
#[verifier::external_body]
pub struct ExClipboardFailure(arboard::Error);

/// Relies on arboard::Clipboard::new: opens the platform clipboard; whether
/// that succeeds depends on the machine, so nothing is promised.
pub assume_specification[ arboard::Clipboard::new ]() -> Result<arboard::Clipboard, arboard::Error>;

/// Relies on arboard::Clipboard::get_text: the clipboard's text, or an error
/// when it holds none; what it holds is outside this process.
pub assume_specification[ arboard::Clipboard::get_text ](clipboard: &mut arboard::Clipboard) -> Result<String, arboard::Error>;

/// Relies on arboard::Clipboard::set_text: places the text on the clipboard
/// or fails when it cannot.
#[verifier::external_body]
fn place_text(clipboard: &mut arboard::Clipboard, text: &str) -> Result<(), arboard::Error> {
    clipboard.set_text(text)
}

/// Relies on the `Display` impl of arboard::Error: a description of the failure.
#[verifier::external_body]
fn describe(e: &arboard::Error) -> String {
    e.to_string()
}

/// The step of a platform clipboard operation that failed.
#[derive(Clone, Copy, Debug, PartialEq, Eq, Structural)]
pub enum NativeStep {
    /// Opening the clipboard service.
    Open,
    /// Placing text on it.
    Write,
    /// Reading text from it.
    Read,
}

/// The error kind of a failed step.
pub open spec fn native_failure_kind(step: NativeStep) -> ErrorKind {
    match step {
        NativeStep::Open => ErrorKind::BackendUnavailable,
        NativeStep::Write => ErrorKind::WriteFailed,
        NativeStep::Read => ErrorKind::ReadFailed,
    }
}

/// The words that introduce the service's own description of a failed step.
pub open spec fn native_failure_prefix(step: NativeStep) -> Seq<char> {
    match step {
        NativeStep::Open => "Failed to create clipboard context: "@,
        NativeStep::Write => "Failed to set clipboard: "@,
        NativeStep::Read => "Failed to get clipboard: "@,
    }
}

/// The error for a failed step, given the service's description of it.
pub fn native_failure(step: NativeStep, detail: String) -> (e: ClipboardError)
    ensures
        e.backend == Backend::Native,
        e.kind == native_failure_kind(step),
        e.message@ == native_failure_prefix(step) + detail@,
{
    let (kind, mut message) = match step {
        NativeStep::Open => (ErrorKind::BackendUnavailable, String::from_str("Failed to create clipboard context: ")),
        NativeStep::Write => (ErrorKind::WriteFailed, String::from_str("Failed to set clipboard: ")),
        NativeStep::Read => (ErrorKind::ReadFailed, String::from_str("Failed to get clipboard: ")),
    };
    message.append(detail.as_str());
    ClipboardError::new(Backend::Native, kind, message)
}

/// The result of a native set, from what the service answered: `opened` to
/// the request for the clipboard, `placed` to the text (looked at only when
/// the clipboard was opened). Each error carries the service's description.
pub fn native_set_result(opened: Result<(), String>, placed: Result<(), String>) -> (r: Result<(), ClipboardError>)
    ensures
        opened matches Err(d) ==> (r matches Err(e) && e.backend == Backend::Native
            && e.kind == ErrorKind::BackendUnavailable
            && e.message@ == native_failure_prefix(NativeStep::Open) + d@),
        opened is Ok ==> (placed matches Err(d) ==> (r matches Err(e) && e.backend == Backend::Native
            && e.kind == ErrorKind::WriteFailed
            && e.message@ == native_failure_prefix(NativeStep::Write) + d@)),
        r is Ok <==> (opened is Ok && placed is Ok),
{
    match opened {
        Err(d) => Err(native_failure(NativeStep::Open, d)),
        Ok(()) => match placed {
            Err(d) => Err(native_failure(NativeStep::Write, d)),
            Ok(()) => Ok(()),
        },
    }
}

/// The result of a native get, from what the service answered: `opened` to
/// the request for the clipboard, `read` to the request for its text (looked
/// at only when the clipboard was opened). The text is returned as it came,
/// untrimmed.
pub fn native_get_result(opened: Result<(), String>, read: Result<String, String>) -> (r: Result<String, ClipboardError>)
    ensures
        opened matches Err(d) ==> (r matches Err(e) && e.backend == Backend::Native
            && e.kind == ErrorKind::BackendUnavailable
            && e.message@ == native_failure_prefix(NativeStep::Open) + d@),
        opened is Ok ==> (read matches Err(d) ==> (r matches Err(e) && e.backend == Backend::Native
            && e.kind == ErrorKind::ReadFailed
            && e.message@ == native_failure_prefix(NativeStep::Read) + d@)),
        opened is Ok ==> (read matches Ok(t) ==> (r matches Ok(u) && u@ == t@)),
        r is Ok <==> (opened is Ok && read is Ok),
{
    match opened {
        Err(d) => Err(native_failure(NativeStep::Open, d)),
        Ok(()) => match read {
            Err(d) => Err(native_failure(NativeStep::Read, d)),
            Ok(t) => Ok(t),
        },
    }
}

/// Sets the platform clipboard to `text`. Fails with `BackendUnavailable`
/// when no clipboard service can be opened and with `WriteFailed` when the
/// service refuses the text (see `native_set_result`); which of these
/// happens depends on the machine.
pub fn native_set_text(text: &str) -> (r: Result<(), ClipboardError>)
    ensures
        r matches Err(e) ==> e.backend == Backend::Native && (e.kind == ErrorKind::BackendUnavailable
            || e.kind == ErrorKind::WriteFailed),
{
    match arboard::Clipboard::new() {
        Ok(mut clipboard) => {
            let placed = match place_text(&mut clipboard, text) {
                Ok(()) => Ok(()),
                Err(e) => Err(describe(&e)),
            };
            native_set_result(Ok(()), placed)
        },
        Err(e) => native_set_result(Err(describe(&e)), Ok(())),
    }
}

/// Reads the platform clipboard's text, untrimmed. Fails with
/// `BackendUnavailable` when no clipboard service can be opened and with
/// `ReadFailed` when it holds no text or cannot be read (see
/// `native_get_result`); which of these happens depends on the machine.
pub fn native_get_text() -> (r: Result<String, ClipboardError>)
    ensures
        r matches Err(e) ==> e.backend == Backend::Native && (e.kind == ErrorKind::BackendUnavailable
            || e.kind == ErrorKind::ReadFailed),
{
    match arboard::Clipboard::new() {
        Ok(mut clipboard) => {
            let read = match clipboard.get_text() {
                Ok(t) => Ok(t),
                Err(e) => Err(describe(&e)),
            };
            native_get_result(Ok(()), read)
        },
        Err(e) => native_get_result(Err(describe(&e)), Ok(String::new())),
    }
}

} // verus!
