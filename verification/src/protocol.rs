//! The three operations on a tree, for any kind of record: what is checked
//! before anything is requested, and which requests follow.

use crate::authority::{confirm_authority, confirmed, derived_view, Authority, AuthorityView};
use crate::error::NoteError;
use crate::operation::{append_steps, create_steps, update_steps, Operation, OperationView};
use vstd::prelude::*;

verus! {

/// The least depth of a tree.
pub const MIN_DEPTH: u32 = 3;

/// The greatest depth of a tree.
pub const MAX_DEPTH: u32 = 30;

/// The least size of a tree's buffer.
pub const MIN_BUFFER_SIZE: u32 = 8;

/// The greatest size of a tree's buffer.
pub const MAX_BUFFER_SIZE: u32 = 1024;

/// Whether a tree may be created with these parameters.
pub open spec fn valid_tree_parameters(max_depth: u32, max_buffer_size: u32) -> bool {
    MIN_DEPTH <= max_depth <= MAX_DEPTH && MIN_BUFFER_SIZE <= max_buffer_size <= MAX_BUFFER_SIZE
}

/// What a planned operation is to contracts.
pub open spec fn planned(plan: Result<Operation, NoteError>) -> Result<OperationView, NoteError> {
    match plan {
        Ok(op) => Ok(op@),
        Err(error) => Err(error),
    }
}

/// Creation: the parameters are checked first, then the authority.
pub open spec fn create_outcome(
    max_depth: u32,
    max_buffer_size: u32,
    authority: Option<AuthorityView>,
) -> Result<OperationView, NoteError> {
    if !valid_tree_parameters(max_depth, max_buffer_size) {
        Err(NoteError::InvalidParameter)
    } else {
        match authority {
            None => Err(NoteError::AuthorityMismatch),
            Some(authority) => Ok(
                OperationView::fresh(create_steps(authority, max_depth, max_buffer_size)),
            ),
        }
    }
}

/// Appending: the entry must fit on the wire, and the authority be the tree's.
/// `payload` is `None` where the entry does not fit.
pub open spec fn append_outcome(
    authority: Option<AuthorityView>,
    leaf: Seq<u8>,
    payload: Option<Seq<u8>>,
) -> Result<OperationView, NoteError> {
    match payload {
        None => Err(NoteError::ContentTooLong),
        Some(payload) => match authority {
            None => Err(NoteError::AuthorityMismatch),
            Some(authority) => Ok(OperationView::fresh(append_steps(authority, leaf, payload))),
        },
    }
}

/// Updating: new content that equals the old is refused before all else.
pub open spec fn update_outcome(
    authority: Option<AuthorityView>,
    root: Seq<u8>,
    index: u32,
    old_content: Seq<char>,
    new_content: Seq<char>,
    previous_leaf: Seq<u8>,
    new_leaf: Seq<u8>,
    payload: Option<Seq<u8>>,
) -> Result<OperationView, NoteError> {
    if old_content == new_content {
        Err(NoteError::IdenticalContent)
    } else {
        match payload {
            None => Err(NoteError::ContentTooLong),
            Some(payload) => match authority {
                None => Err(NoteError::AuthorityMismatch),
                Some(authority) => Ok(
                    OperationView::fresh(
                        update_steps(authority, root, index, previous_leaf, new_leaf, payload),
                    ),
                ),
            },
        }
    }
}

/// What an encoded entry is to contracts: its bytes, or `None` where the
/// entry did not fit.
pub open spec fn encoded(payload: Result<Vec<u8>, NoteError>) -> Option<Seq<u8>> {
    match payload {
        Ok(bytes) => Some(bytes@),
        Err(_) => None,
    }
}

/// Plans the creation of a tree. `derived` is the authority derived from the
/// tree's address, `claimed` the one that the caller handed in.
pub fn create_tree(
    max_depth: u32,
    max_buffer_size: u32,
    claimed: &[u8; 32],
    derived: Option<Authority>,
) -> (plan: Result<Operation, NoteError>)
    ensures
        planned(plan) == create_outcome(
            max_depth,
            max_buffer_size,
            confirmed(derived_view(derived), claimed@),
        ),
{
    if max_depth < MIN_DEPTH || max_depth > MAX_DEPTH || max_buffer_size < MIN_BUFFER_SIZE
        || max_buffer_size > MAX_BUFFER_SIZE {
        return Err(NoteError::InvalidParameter);
    }
    match confirm_authority(derived, claimed) {
        Ok(authority) => Ok(Operation::init_empty_tree(authority, max_depth, max_buffer_size)),
        Err(error) => Err(error),
    }
}

/// Plans the appending of a record with the given leaf and encoded entry.
pub fn append(
    claimed: &[u8; 32],
    derived: Option<Authority>,
    leaf: [u8; 32],
    payload: Result<Vec<u8>, NoteError>,
) -> (plan: Result<Operation, NoteError>)
    ensures
        planned(plan) == append_outcome(
            confirmed(derived_view(derived), claimed@),
            leaf@,
            encoded(payload),
        ),
{
    let payload = match payload {
        Ok(payload) => payload,
        Err(_) => {
            return Err(NoteError::ContentTooLong);
        },
    };
    match confirm_authority(derived, claimed) {
        Ok(authority) => Ok(Operation::append_leaf(authority, leaf, payload)),
        Err(error) => Err(error),
    }
}

/// Plans the update of the record at `index` from `old_content` to
/// `new_content`, given the leaves of both and the encoded new entry.
pub fn update(
    claimed: &[u8; 32],
    derived: Option<Authority>,
    index: u32,
    root: [u8; 32],
    old_content: &str,
    new_content: &str,
    previous_leaf: [u8; 32],
    new_leaf: [u8; 32],
    payload: Result<Vec<u8>, NoteError>,
) -> (plan: Result<Operation, NoteError>)
    ensures
        planned(plan) == update_outcome(
            confirmed(derived_view(derived), claimed@),
            root@,
            index,
            old_content@,
            new_content@,
            previous_leaf@,
            new_leaf@,
            encoded(payload),
        ),
{
    if same_text(old_content, new_content) {
        return Err(NoteError::IdenticalContent);
    }
    let payload = match payload {
        Ok(payload) => payload,
        Err(_) => {
            return Err(NoteError::ContentTooLong);
        },
    };
    match confirm_authority(derived, claimed) {
        Ok(authority) => Ok(
            Operation::replace_leaf(authority, root, index, previous_leaf, new_leaf, payload),
        ),
        Err(error) => Err(error),
    }
}

/// Whether two texts are the same.
fn same_text(left: &str, right: &str) -> (same: bool)
    ensures
        same == (left@ == right@),
{
    let a = left.as_bytes();
    let b = right.as_bytes();
    proof {
        vstd::utf8::encode_utf8_decode_utf8(left@);
        vstd::utf8::encode_utf8_decode_utf8(right@);
    }
    if a.len() != b.len() {
        return false;
    }
    let mut i: usize = 0;
    while i < a.len()
        invariant
            i <= a@.len(),
            a@.len() == b@.len(),
            a@ == vstd::utf8::encode_utf8(left@),
            b@ == vstd::utf8::encode_utf8(right@),
            forall|k: int| 0 <= k < i ==> a@[k] == b@[k],
        decreases a@.len() - i,
    {
        if a[i] != b[i] {
            return false;
        }
        i += 1;
    }
    assert(a@ =~= b@);
    true
}

} // verus!
