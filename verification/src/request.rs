//! What an operation asks of its collaborators, and what they answer.

use crate::authority::{Authority, AuthorityView};
use crate::error::NoteError;
use vstd::prelude::*;

verus! {

/// One request to the tree engine or to the event log. Every request to the
/// engine is signed on behalf of the tree's authority.
#[derive(Clone, Debug, PartialEq, Eq)]
pub enum Request {
    /// Initialise an empty tree bound to `authority`.
    InitEmptyTree { authority: Authority, max_depth: u32, max_buffer_size: u32 },
    /// Publish `payload`, one encoded log entry, on the event log.
    Emit { payload: Vec<u8> },
    /// Append `leaf` to the tree.
    AppendLeaf { authority: Authority, leaf: [u8; 32] },
    /// Check that `leaf` stands at `index` under `root`. Changes nothing.
    VerifyLeaf { authority: Authority, root: [u8; 32], leaf: [u8; 32], index: u32 },
    /// Put `new_leaf` in the place of `previous_leaf` at `index` under `root`.
    ReplaceLeaf {
        authority: Authority,
        root: [u8; 32],
        previous_leaf: [u8; 32],
        new_leaf: [u8; 32],
        index: u32,
    },
}

/// A request as contracts see it.
pub enum RequestView {
    InitEmptyTree { authority: AuthorityView, max_depth: u32, max_buffer_size: u32 },
    Emit { payload: Seq<u8> },
    AppendLeaf { authority: AuthorityView, leaf: Seq<u8> },
    VerifyLeaf { authority: AuthorityView, root: Seq<u8>, leaf: Seq<u8>, index: u32 },
    ReplaceLeaf {
        authority: AuthorityView,
        root: Seq<u8>,
        previous_leaf: Seq<u8>,
        new_leaf: Seq<u8>,
        index: u32,
    },
}

impl View for Request {
    type V = RequestView;

    open spec fn view(&self) -> RequestView {
        match *self {
            Request::InitEmptyTree { authority, max_depth, max_buffer_size } => {
                RequestView::InitEmptyTree { authority: authority@, max_depth, max_buffer_size }
            },
            Request::Emit { payload } => RequestView::Emit { payload: payload@ },
            Request::AppendLeaf { authority, leaf } => RequestView::AppendLeaf {
                authority: authority@,
                leaf: leaf@,
            },
            Request::VerifyLeaf { authority, root, leaf, index } => RequestView::VerifyLeaf {
                authority: authority@,
                root: root@,
                leaf: leaf@,
                index,
            },
            Request::ReplaceLeaf { authority, root, previous_leaf, new_leaf, index } => {
                RequestView::ReplaceLeaf {
                    authority: authority@,
                    root: root@,
                    previous_leaf: previous_leaf@,
                    new_leaf: new_leaf@,
                    index,
                }
            },
        }
    }
}

/// The answer to one request.
#[derive(Clone, Copy, Debug, PartialEq, Eq, Structural)]
pub enum Reply {
    /// The request was carried out.
    Done,
    /// The request failed and changed nothing; the code is the collaborator's.
    Failed(u64),
}

impl RequestView {
    /// The error that a failure of this request with `code` means: a failed
    /// verification shows a stale or wrong view of the tree, anything else is
    /// the engine's or the log's own failure.
    pub open spec fn failure(self, code: u64) -> NoteError {
        match self {
            RequestView::VerifyLeaf { .. } => NoteError::VerificationFailed(code),
            _ => NoteError::EngineFailure(code),
        }
    }
}

impl Request {
    /// The error to report when this request fails with `code`.
    pub fn failure(&self, code: u64) -> (error: NoteError)
        ensures
            error == self@.failure(code),
    {
        match self {
            Request::VerifyLeaf { .. } => NoteError::VerificationFailed(code),
            _ => NoteError::EngineFailure(code),
        }
    }
}

} // verus!
