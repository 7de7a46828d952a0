use vstd::prelude::*;
use crate::context::Backend;

verus! {

/// Why a clipboard operation failed.
#[derive(Clone, Copy, Debug, PartialEq, Eq, Structural)]
pub enum ErrorKind {
    /// The clipboard service or context could not be acquired.
    BackendUnavailable,
    /// Reading the clipboard, or the helper's output, failed.
    ReadFailed,
    /// Writing the clipboard, or the payload to the helper, failed.
    WriteFailed,
    /// The operation has no meaning for the selected backend.
    UnsupportedOperation,
    /// The helper process could not be launched.
    SpawnFailed,
    /// The input channel to the helper could not be obtained.
    StreamUnavailable,
}

/// A failure, tagged with the backend that produced it.
#[derive(Clone, Debug)]
pub struct ClipboardError {
    pub backend: Backend,
    pub kind: ErrorKind,
    /// A description of the cause, for people.
    pub message: String,
}

impl ClipboardError {
    pub fn new(backend: Backend, kind: ErrorKind, message: String) -> (r: Self)
        ensures
            r.backend == backend,
            r.kind == kind,
            r.message@ == message@,
    {
        ClipboardError { backend, kind, message }
    }
}

} // verus!
