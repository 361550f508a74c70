//! What an observer of the event log and of the tree gets to see: the
//! entries published and the leaves committed, each in order.

use crate::entry::entry_leaf;
use crate::operation::OperationView;
use crate::request::RequestView;
use vstd::prelude::*;

verus! {

/// The leaves of the entries that the requests in `trace` publish, in order.
pub open spec fn published(trace: Seq<RequestView>) -> Seq<Seq<u8>>
    decreases trace.len(),
{
    if trace.len() == 0 {
        seq![]
    } else {
        let before = published(trace.drop_last());
        match trace.last() {
            RequestView::Emit { payload } => before.push(entry_leaf(payload)),
            _ => before,
        }
    }
}

/// The leaves that the requests in `trace` put into a tree, in order.
pub open spec fn committed(trace: Seq<RequestView>) -> Seq<Seq<u8>>
    decreases trace.len(),
{
    if trace.len() == 0 {
        seq![]
    } else {
        let before = committed(trace.drop_last());
        match trace.last() {
            RequestView::AppendLeaf { leaf, .. } => before.push(leaf),
            RequestView::ReplaceLeaf { new_leaf, .. } => before.push(new_leaf),
            _ => before,
        }
    }
}

/// The steps of an append whose entry names the leaf it appends.
pub open spec fn is_append(steps: Seq<RequestView>) -> bool {
    steps.len() == 2 && match (steps[0], steps[1]) {
        (RequestView::Emit { payload }, RequestView::AppendLeaf { leaf, .. }) => entry_leaf(payload)
            == leaf,
        _ => false,
    }
}

/// The steps of an update whose entry names the leaf it puts in place.
pub open spec fn is_update(steps: Seq<RequestView>) -> bool {
    steps.len() == 3 && match (steps[0], steps[1], steps[2]) {
        (
            RequestView::VerifyLeaf { .. },
            RequestView::Emit { payload },
            RequestView::ReplaceLeaf { new_leaf, .. },
        ) => entry_leaf(payload) == new_leaf,
        _ => false,
    }
}

/// The steps of an operation that changes a record.
pub open spec fn is_mutation(steps: Seq<RequestView>) -> bool {
    is_append(steps) || is_update(steps)
}

/// All that a sequence of operations had carried out, one operation after
/// the other.
pub open spec fn history(ops: Seq<OperationView>) -> Seq<RequestView>
    decreases ops.len(),
{
    if ops.len() == 0 {
        seq![]
    } else {
        history(ops.drop_last()) + ops.last().performed()
    }
}

/// What two traces publish one after the other is what the first publishes,
/// then what the second does.
pub proof fn lemma_published_concat(first: Seq<RequestView>, second: Seq<RequestView>)
    ensures
        published(first + second) == published(first) + published(second),
    decreases second.len(),
{
    if second.len() == 0 {
        assert(first + second == first);
        assert(published(first) + published(second) == published(first));
    } else {
        lemma_published_concat(first, second.drop_last());
        assert((first + second).drop_last() == first + second.drop_last());
        assert((first + second).last() == second.last());
        match second.last() {
            RequestView::Emit { payload } => {
                assert(published(first + second) == (published(first) + published(
                    second.drop_last(),
                )).push(entry_leaf(payload)));
                assert(published(first + second) == published(first) + published(second));
            },
            _ => {},
        }
    }
}

/// What two traces commit one after the other is what the first commits,
/// then what the second does.
pub proof fn lemma_committed_concat(first: Seq<RequestView>, second: Seq<RequestView>)
    ensures
        committed(first + second) == committed(first) + committed(second),
    decreases second.len(),
{
    if second.len() == 0 {
        assert(first + second == first);
        assert(committed(first) + committed(second) == committed(first));
    } else {
        lemma_committed_concat(first, second.drop_last());
        assert((first + second).drop_last() == first + second.drop_last());
        assert((first + second).last() == second.last());
        let before = committed(first) + committed(second.drop_last());
        match second.last() {
            RequestView::AppendLeaf { leaf, .. } => {
                assert(committed(first + second) == before.push(leaf));
                assert(committed(first + second) == committed(first) + committed(second));
            },
            RequestView::ReplaceLeaf { new_leaf, .. } => {
                assert(committed(first + second) == before.push(new_leaf));
                assert(committed(first + second) == committed(first) + committed(second));
            },
            _ => {},
        }
    }
}

/// Within one operation that changes a record, at every point of its course
/// and whether or not it failed, a leaf is in the tree only if its entry was
/// published before: what was committed is the beginning of what was
/// published.
pub proof fn lemma_entry_precedes_leaf(op: OperationView)
    requires
        op.wf(),
        is_mutation(op.steps),
    ensures
        committed(op.performed()).len() <= published(op.performed()).len(),
        committed(op.performed()) == published(op.performed()).take(
            committed(op.performed()).len() as int,
        ),
{
    reveal_with_fuel(published, 4);
    reveal_with_fuel(committed, 4);
    let trace = op.performed();
    if trace.len() >= 1 {
        assert(trace.drop_last().len() == trace.len() - 1);
        if trace.len() >= 2 {
            assert(trace.drop_last().drop_last().len() == trace.len() - 2);
            if trace.len() >= 3 {
                assert(trace.drop_last().drop_last().drop_last().len() == trace.len() - 3);
            }
        }
    }
    assert(committed(trace) =~= published(trace).take(committed(trace).len() as int));
}

/// An update whose old leaf has not been verified has published nothing and
/// changed nothing, whether it is still waiting or has failed.
pub proof fn lemma_nothing_before_verification(op: OperationView)
    requires
        op.wf(),
        is_update(op.steps),
        op.done == 0,
    ensures
        published(op.performed()) == Seq::<Seq<u8>>::empty(),
        committed(op.performed()) == Seq::<Seq<u8>>::empty(),
{
    assert(op.performed().len() == 0);
}

/// An operation that changes a record and has failed, at whichever request,
/// has changed nothing in the tree.
pub proof fn lemma_failed_mutation_commits_nothing(op: OperationView)
    requires
        op.wf(),
        is_mutation(op.steps),
        op.failure is Some,
    ensures
        committed(op.performed()) == Seq::<Seq<u8>>::empty(),
{
    reveal_with_fuel(committed, 3);
    let trace = op.performed();
    if trace.len() >= 1 {
        assert(trace.drop_last().len() == trace.len() - 1);
        if trace.len() >= 2 {
            assert(trace.drop_last().drop_last().len() == trace.len() - 2);
        }
    }
}

/// An operation that changes a record and has succeeded published exactly
/// one entry and committed exactly the leaf that the entry names.
pub proof fn lemma_mutation_publishes_its_leaf(op: OperationView)
    requires
        op.wf(),
        is_mutation(op.steps),
        op.outcome() == Some(Ok::<(), crate::error::NoteError>(())),
    ensures
        published(op.performed()).len() == 1,
        committed(op.performed()) == published(op.performed()),
{
    reveal_with_fuel(published, 4);
    reveal_with_fuel(committed, 4);
    let trace = op.performed();
    assert(trace == op.steps);
    assert(trace.drop_last().len() == trace.len() - 1);
    assert(trace.drop_last().drop_last().len() == trace.len() - 2);
    if trace.len() >= 3 {
        assert(trace.drop_last().drop_last().drop_last().len() == trace.len() - 3);
    }
    assert(committed(trace) =~= published(trace));
}

/// After any sequence of operations that each changed a record and
/// succeeded, the log holds as many entries as there were operations, and
/// the leaf of each entry is the leaf committed by the operation it belongs
/// to.
pub proof fn lemma_log_matches_tree(ops: Seq<OperationView>)
    requires
        forall|i: int|
            0 <= i < ops.len() ==> {
                &&& (#[trigger] ops[i]).wf()
                &&& is_mutation(ops[i].steps)
                &&& ops[i].outcome() == Some(Ok::<(), crate::error::NoteError>(()))
            },
    ensures
        published(history(ops)).len() == ops.len(),
        committed(history(ops)) == published(history(ops)),
    decreases ops.len(),
{
    if ops.len() > 0 {
        let earlier = ops.drop_last();
        assert forall|i: int| 0 <= i < earlier.len() implies {
            &&& (#[trigger] earlier[i]).wf()
            &&& is_mutation(earlier[i].steps)
            &&& earlier[i].outcome() == Some(Ok::<(), crate::error::NoteError>(()))
        } by {
            assert(earlier[i] == ops[i]);
        }
        lemma_log_matches_tree(earlier);
        lemma_mutation_publishes_its_leaf(ops.last());
        lemma_published_concat(history(earlier), ops.last().performed());
        lemma_committed_concat(history(earlier), ops.last().performed());
    }
}

} // verus!
