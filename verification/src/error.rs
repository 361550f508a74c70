//! Why an operation was refused or failed.

use vstd::prelude::*;

verus! {

/// The three kinds of failure a caller has to tell apart.
#[derive(Clone, Copy, Debug, PartialEq, Eq, Structural)]
pub enum ErrorClass {
    /// The caller's input was rejected before anything was requested.
    Validation,
    /// The caller's view of the tree is stale or wrong: fetch the current
    /// root and index and start over.
    Consistency,
    /// The tree engine or the event log failed; the operation is over.
    Engine,
}

/// Every way an operation can fail.
#[derive(Clone, Copy, Debug, PartialEq, Eq, Structural)]
pub enum NoteError {
    /// The depth or the buffer size of a new tree is out of range.
    InvalidParameter,
    /// An update whose new content equals the old content.
    IdenticalContent,
    /// The authority handed in is not the one derived from the tree's address.
    AuthorityMismatch,
    /// The content is too long for the length field of a log entry.
    ContentTooLong,
    /// The engine did not find the claimed leaf under the claimed root; the
    /// code is the engine's own.
    VerificationFailed(u64),
    /// Any other failure of the engine or of the event log, with its code.
    EngineFailure(u64),
}

impl NoteError {
    /// The class of each error.
    pub open spec fn class_of(self) -> ErrorClass {
        match self {
            NoteError::InvalidParameter => ErrorClass::Validation,
            NoteError::IdenticalContent => ErrorClass::Validation,
            NoteError::AuthorityMismatch => ErrorClass::Validation,
            NoteError::ContentTooLong => ErrorClass::Validation,
            NoteError::VerificationFailed(_) => ErrorClass::Consistency,
            NoteError::EngineFailure(_) => ErrorClass::Engine,
        }
    }

    /// Tells which kind of failure this is.
    pub fn class(&self) -> (class: ErrorClass)
        ensures
            class == self.class_of(),
    {
        match self {
            NoteError::InvalidParameter => ErrorClass::Validation,
            NoteError::IdenticalContent => ErrorClass::Validation,
            NoteError::AuthorityMismatch => ErrorClass::Validation,
            NoteError::ContentTooLong => ErrorClass::Validation,
            NoteError::VerificationFailed(_) => ErrorClass::Consistency,
            NoteError::EngineFailure(_) => ErrorClass::Engine,
        }
    }
}

} // verus!
