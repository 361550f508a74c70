//! One operation in flight: the requests it makes, in order, and how far it
//! has come. The caller carries out the pending request and reports the
//! answer; the operation decides what follows.

use crate::authority::{Authority, AuthorityView};
use crate::error::NoteError;
use crate::request::{Reply, Request, RequestView};
use vstd::prelude::*;

verus! {

/// An operation as contracts see it.
pub struct OperationView {
    /// Every request the operation makes if none fails, in order.
    pub steps: Seq<RequestView>,
    /// How many of them have been carried out.
    pub done: nat,
    /// Why the operation failed, once it has.
    pub failure: Option<NoteError>,
}

/// The requests that create a tree.
pub open spec fn create_steps(
    authority: AuthorityView,
    max_depth: u32,
    max_buffer_size: u32,
) -> Seq<RequestView> {
    seq![RequestView::InitEmptyTree { authority, max_depth, max_buffer_size }]
}

/// The requests that append a record: publish its entry, then append its leaf.
pub open spec fn append_steps(authority: AuthorityView, leaf: Seq<u8>, payload: Seq<u8>) -> Seq<
    RequestView,
> {
    seq![RequestView::Emit { payload }, RequestView::AppendLeaf { authority, leaf }]
}

/// The requests that update a record: verify the old leaf, publish the new
/// entry, then replace the leaf.
pub open spec fn update_steps(
    authority: AuthorityView,
    root: Seq<u8>,
    index: u32,
    previous_leaf: Seq<u8>,
    new_leaf: Seq<u8>,
    payload: Seq<u8>,
) -> Seq<RequestView> {
    seq![
        RequestView::VerifyLeaf { authority, root, leaf: previous_leaf, index },
        RequestView::Emit { payload },
        RequestView::ReplaceLeaf { authority, root, previous_leaf, new_leaf, index },
    ]
}

impl OperationView {
    /// An operation that has not begun.
    pub open spec fn fresh(steps: Seq<RequestView>) -> OperationView {
        OperationView { steps, done: 0, failure: None }
    }

    /// What holds of every operation.
    pub open spec fn wf(self) -> bool {
        self.done <= self.steps.len() && (self.failure is Some ==> self.done < self.steps.len())
    }

    /// The request to carry out next, if the operation is still running.
    pub open spec fn pending(self) -> Option<RequestView> {
        if self.failure is None && self.done < self.steps.len() {
            Some(self.steps[self.done as int])
        } else {
            None
        }
    }

    /// The operation after the answer `reply` to its pending request. An
    /// operation that is over stays as it is.
    pub open spec fn after(self, reply: Reply) -> OperationView {
        match self.pending() {
            None => self,
            Some(request) => match reply {
                Reply::Done => OperationView { done: self.done + 1, ..self },
                Reply::Failed(code) => OperationView {
                    failure: Some(request.failure(code)),
                    ..self
                },
            },
        }
    }

    /// How the operation ended, once it has.
    pub open spec fn outcome(self) -> Option<Result<(), NoteError>> {
        match self.failure {
            Some(error) => Some(Err(error)),
            None => if self.done < self.steps.len() {
                None
            } else {
                Some(Ok(()))
            },
        }
    }

    /// The requests that were carried out, in order.
    pub open spec fn performed(self) -> Seq<RequestView> {
        self.steps.take(self.done as int)
    }
}

/// An operation in flight.
#[derive(Debug)]
pub struct Operation {
    steps: Vec<Request>,
    done: usize,
    failure: Option<NoteError>,
}

impl View for Operation {
    type V = OperationView;

    closed spec fn view(&self) -> OperationView {
        OperationView {
            steps: self.steps.deep_view(),
            done: self.done as nat,
            failure: self.failure,
        }
    }
}

impl DeepView for Request {
    type V = RequestView;

    open spec fn deep_view(&self) -> RequestView {
        self@
    }
}

impl Operation {
    #[verifier::type_invariant]
    spec fn inv(self) -> bool {
        self@.wf()
    }

    /// The operation that creates a tree bound to `authority`.
    pub fn init_empty_tree(authority: Authority, max_depth: u32, max_buffer_size: u32) -> (op:
        Operation)
        ensures
            op@ == OperationView::fresh(create_steps(authority@, max_depth, max_buffer_size)),
    {
        let steps = vec![Request::InitEmptyTree { authority, max_depth, max_buffer_size }];
        assert(steps.deep_view() =~= create_steps(authority@, max_depth, max_buffer_size));
        Operation { steps, done: 0, failure: None }
    }

    /// The operation that appends `leaf`, whose entry on the wire is `payload`.
    pub fn append_leaf(authority: Authority, leaf: [u8; 32], payload: Vec<u8>) -> (op: Operation)
        ensures
            op@ == OperationView::fresh(append_steps(authority@, leaf@, payload@)),
    {
        let ghost bytes = payload@;
        let steps = vec![Request::Emit { payload }, Request::AppendLeaf { authority, leaf }];
        assert(steps.deep_view() =~= append_steps(authority@, leaf@, bytes));
        Operation { steps, done: 0, failure: None }
    }

    /// The operation that replaces `previous_leaf` at `index` under `root` by
    /// `new_leaf`, whose entry on the wire is `payload`.
    pub fn replace_leaf(
        authority: Authority,
        root: [u8; 32],
        index: u32,
        previous_leaf: [u8; 32],
        new_leaf: [u8; 32],
        payload: Vec<u8>,
    ) -> (op: Operation)
        ensures
            op@ == OperationView::fresh(
                update_steps(authority@, root@, index, previous_leaf@, new_leaf@, payload@),
            ),
    {
        let ghost bytes = payload@;
        let steps = vec![
            Request::VerifyLeaf { authority, root, leaf: previous_leaf, index },
            Request::Emit { payload },
            Request::ReplaceLeaf { authority, root, previous_leaf, new_leaf, index },
        ];
        assert(steps.deep_view() =~= update_steps(
            authority@,
            root@,
            index,
            previous_leaf@,
            new_leaf@,
            bytes,
        ));
        Operation { steps, done: 0, failure: None }
    }

    /// The request to carry out next; `None` once the operation is over.
    pub fn pending(&self) -> (request: Option<&Request>)
        ensures
            self@.wf(),
            match request {
                Some(request) => self@.pending() == Some(request@),
                None => self@.pending() is None,
            },
    {
        proof {
            use_type_invariant(self);
        }
        if self.failure.is_none() && self.done < self.steps.len() {
            Some(&self.steps[self.done])
        } else {
            None
        }
    }

    /// Takes the answer to the pending request. `Done` moves on to the next
    /// request; a failure ends the operation with the error that the failed
    /// request stands for. Nothing is tried again.
    pub fn advance(&mut self, reply: Reply)
        ensures
            final(self)@ == old(self)@.after(reply),
            final(self)@.wf(),
    {
        proof {
            use_type_invariant(&*self);
        }
        if self.failure.is_none() && self.done < self.steps.len() {
            match reply {
                Reply::Done => {
                    self.done = self.done + 1;
                },
                Reply::Failed(code) => {
                    self.failure = Some(self.steps[self.done].failure(code));
                },
            }
        }
    }

    /// How the operation ended: `None` while a request is pending.
    pub fn outcome(&self) -> (outcome: Option<Result<(), NoteError>>)
        ensures
            outcome == self@.outcome(),
    {
        proof {
            use_type_invariant(self);
        }
        match self.failure {
            Some(error) => Some(Err(error)),
            None => if self.done < self.steps.len() {
                None
            } else {
                Some(Ok(()))
            },
        }
    }
}

} // verus!
