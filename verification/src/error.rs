//! The failures that the persistence gateway and the entities report.

use vstd::prelude::*;
use vstd::string::StringExecFns;

verus! {

/// What went wrong.
#[derive(Clone, Copy, Debug, PartialEq, Eq, Structural)]
pub enum ErrorKind {
    /// There is no persisted document to work on.
    NotFound,
    /// A persisted document or a due date is malformed.
    ParseFailure,
    /// The export format is not one of the supported ones.
    InvalidFormat,
    /// The storage medium failed to read, write or copy.
    IoFailure,
}

/// A failure with the text that is shown to the user.
#[derive(Debug, PartialEq, Eq)]
pub struct NotesError {
    pub kind: ErrorKind,
    pub message: String,
}

impl NotesError {
    /// A failure of the given kind with the given text.
    pub fn new(kind: ErrorKind, message: &str) -> (e: NotesError)
        ensures
            e.kind == kind,
            e.message@ == message@,
    {
        NotesError { kind, message: String::from_str(message) }
    }
}

} // verus!
