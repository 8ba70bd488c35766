//! The errors of clipboard operations.

use crate::text::texts;
use vstd::prelude::*;
use vstd::string::*;

verus! {

/// Why a clipboard operation did not produce a result.
///
/// "Nothing of the requested kind is on the clipboard" (`NotFound`) is kept
/// apart from "the operating system reported a failure" (`PlatformIo`,
/// `Resource`), so that a caller can tell an empty clipboard from a broken one.
#[derive(Clone, Copy, Debug, PartialEq, Eq, Structural)]
pub enum ErrorKind {
    /// The caller supplied no usable data, such as no resolvable path.
    InvalidInput,
    /// The clipboard holds no data of the requested kind.
    NotFound,
    /// A native call failed.
    PlatformIo,
    /// A native resource (clipboard handle, memory, session) could not be acquired.
    Resource,
}

/// A failed clipboard operation: its kind and a human-readable reason.
#[derive(Debug, PartialEq, Eq)]
pub struct ClipboardError {
    pub kind: ErrorKind,
    pub message: String,
}

/// What an error says in contracts: its kind and the characters of its reason.
pub struct ErrorModel {
    pub kind: ErrorKind,
    pub message: Seq<char>,
}

impl View for ClipboardError {
    type V = ErrorModel;

    open spec fn view(&self) -> ErrorModel {
        ErrorModel { kind: self.kind, message: self.message@ }
    }
}

impl ClipboardError {
    /// An error of the given kind with the given reason.
    pub fn new(kind: ErrorKind, message: String) -> (e: ClipboardError)
        ensures
            e@ == (ErrorModel { kind, message: message@ }),
    {
        ClipboardError { kind, message }
    }

    /// An error of the given kind whose reason is the given text.
    pub fn with_text(kind: ErrorKind, message: &str) -> (e: ClipboardError)
        ensures
            e@ == (ErrorModel { kind, message: message@ }),
    {
        ClipboardError { kind, message: String::from_str(message) }
    }

    /// Whether the error states that the clipboard holds nothing of the
    /// requested kind.
    pub fn is_absence(&self) -> (r: bool)
        ensures
            r == (self@.kind == ErrorKind::NotFound),
    {
        self.kind == ErrorKind::NotFound
    }
}

/// What the outcome of an operation says in contracts: what it yields, by
/// its view, or how it failed.
pub open spec fn result_model<T: View>(result: Result<T, ClipboardError>) -> Result<
    T::V,
    ErrorModel,
> {
    match result {
        Ok(value) => Ok(value@),
        Err(e) => Err(e@),
    }
}

/// What the outcome of an operation that yields a list of strings says in
/// contracts.
pub open spec fn list_result(result: Result<Vec<String>, ClipboardError>) -> Result<
    Seq<Seq<char>>,
    ErrorModel,
> {
    match result {
        Ok(list) => Ok(texts(list@)),
        Err(e) => Err(e@),
    }
}

/// A failure that says the clipboard holds nothing of the kind asked for.
pub open spec fn absent(message: Seq<char>) -> ErrorModel {
    ErrorModel { kind: ErrorKind::NotFound, message }
}

/// The reason shown to a host for a failure on the platform named `os`:
/// the platform's name, the words " clipboard error: " and the error's reason.
pub open spec fn host_reason(os: Seq<char>, error: ErrorModel) -> Seq<char> {
    os + " clipboard error: "@ + error.message
}

/// Builds the reason that a host is shown for `error` on the platform `os`.
pub fn platform_error_reason(os: &str, error: &ClipboardError) -> (reason: String)
    ensures
        reason@ == host_reason(os@, error@),
{
    let mut reason = String::from_str(os);
    reason.append(" clipboard error: ");
    reason.append(error.message.as_str());
    reason
}

} // verus!
