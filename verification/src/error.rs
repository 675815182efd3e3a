//! What a store operation reports when it fails.

use vstd::prelude::*;
use vstd::string::*;

use crate::text::{has_prefix, join3};

verus! {

/// The kinds of failure.
#[derive(Clone, Copy, Debug, PartialEq, Eq, Structural)]
pub enum ErrorKind {
    /// No task carries the name that was asked for.
    TaskNotFound,
    /// The snapshot would overwrite a file.
    FileAlreadyExists,
    /// The snapshot to read is not there.
    FileNotFound,
    /// A file could not be opened, created, read or written.
    IOError,
    /// The tasks could not be written as JSON.
    SerializationError,
    /// The text is not a JSON snapshot of tasks.
    DeserializationError,
}

/// A failure: its kind and the message shown for it.
#[derive(Clone, Debug, PartialEq, Eq)]
pub struct StoreError {
    /// What went wrong.
    pub kind: ErrorKind,
    /// The text that is shown to the user.
    pub message: String,
}

impl StoreError {
    /// A failure of kind `kind` whose message is `head`, `subject` and `tail`
    /// in that order.
    pub fn framed(kind: ErrorKind, head: &str, subject: &str, tail: &str) -> (e: StoreError)
        ensures
            e.kind == kind,
            e.message@ == head@ + subject@ + tail@,
    {
        StoreError { kind, message: join3(head, subject, tail) }
    }

    /// A failure of kind `kind` whose message is `head` followed by `detail`.
    pub fn prefixed(kind: ErrorKind, head: &str, detail: &str) -> (e: StoreError)
        ensures
            e.kind == kind,
            e.message@ == head@ + detail@,
            has_prefix(e.message@, head@),
    {
        let mut message = head.to_owned();
        message.append(detail);
        assert(message@.subrange(0, head@.len() as int) == head@);
        StoreError { kind, message }
    }

    /// The message as an owned string.
    pub fn to_string(&self) -> (s: String)
        ensures
            s@ == self.message@,
    {
        self.message.clone()
    }
}

} // verus!
