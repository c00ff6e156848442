//! The failures that the pipeline reports.

use vstd::prelude::*;

verus! {

/// What went wrong, by class.
#[derive(Clone, Copy, Debug, PartialEq, Eq, Structural)]
pub enum ErrorKind {
    /// The input file is missing.
    NotFound,
    /// The archive could not be downloaded or staged.
    Network,
    /// The archive is unreadable, or decompressing it failed.
    Extraction,
    /// Download and extraction went through, yet no runnable executable is in place.
    Incomplete,
    /// The transcoding executable is absent at the moment it is invoked.
    ToolMissing,
    /// The transcoding executable ran and reported a failure of its own.
    ToolRejectedInput,
    /// An image could not be decoded or encoded.
    Codec,
    /// A filesystem operation failed.
    Io,
}

/// A failure: its class and the text shown to the user.
#[derive(Clone, Debug)]
pub struct Failure {
    pub kind: ErrorKind,
    pub message: String,
}

impl Failure {
    /// The failure is of class `kind` and reads `message`.
    pub open spec fn says(&self, kind: ErrorKind, message: Seq<char>) -> bool {
        self.kind == kind && self.message@ == message
    }

    /// A failure with a fixed text.
    pub fn new(kind: ErrorKind, message: &str) -> (failure: Failure)
        ensures
            failure.says(kind, message@),
    {
        Failure { kind, message: String::from_str(message) }
    }

    /// A failure whose text is `prefix` followed by the cause reported from outside.
    pub fn with_detail(kind: ErrorKind, prefix: &str, detail: &str) -> (failure: Failure)
        ensures
            failure.says(kind, prefix@ + detail@),
    {
        Failure { kind, message: String::from_str(prefix).concat(detail) }
    }

    /// A failure whose whole text is the cause reported from outside.
    pub fn from_cause(kind: ErrorKind, cause: String) -> (failure: Failure)
        ensures
            failure.says(kind, cause@),
    {
        Failure { kind, message: cause }
    }

    /// The text shown to the user.
    pub fn to_text(&self) -> (text: String)
        ensures
            text@ == self.message@,
    {
        self.message.clone()
    }
}

} // verus!
