//! Notes: records that belong to their owner alone.

use crate::accounts::NoteAccounts;
use crate::authority::{authority_of, confirmed, derive_authority, AuthorityView};
use crate::entry::{create_note_log, lemma_note_log_leaf, text_fits, NoteLogView};
use crate::error::NoteError;
use crate::hash::{leaf, leaf_of};
use crate::history::{is_append, is_update};
use crate::operation::Operation;
use crate::protocol::{
    append, append_outcome, create_outcome, create_tree, planned, update, update_outcome,
};
use vstd::prelude::*;
use vstd::utf8::encode_utf8;

verus! {

/// The leaf of a note: the digest of its text in UTF-8 followed by its owner.
pub open spec fn note_leaf(note: Seq<char>, owner: Seq<u8>) -> Seq<u8> {
    leaf_of(encode_utf8(note), owner)
}

/// The entry of a note on the wire, or `None` where the note is too long.
pub open spec fn note_payload(note: Seq<char>, owner: Seq<u8>) -> Option<Seq<u8>> {
    if text_fits(note) {
        Some(NoteLogView { leaf_node: note_leaf(note, owner), owner, note }.encoding())
    } else {
        None
    }
}

/// The authority that signs for the tree of `accounts`: the one derived from
/// the tree's address, provided that the accounts name it.
pub open spec fn note_authority(program_id: Seq<u8>, accounts: NoteAccounts) -> Option<
    AuthorityView,
> {
    confirmed(authority_of(program_id, accounts.merkle_tree@), accounts.tree_authority@)
}

/// Plans the creation of an empty tree for notes. A depth outside 3..=30 or a
/// buffer size outside 8..=1024 is refused before anything is requested.
pub fn create_note_tree(
    program_id: &[u8; 32],
    accounts: &NoteAccounts,
    max_depth: u32,
    max_buffer_size: u32,
) -> (plan: Result<Operation, NoteError>)
    ensures
        planned(plan) == create_outcome(
            max_depth,
            max_buffer_size,
            note_authority(program_id@, *accounts),
        ),
{
    let derived = derive_authority(program_id, &accounts.merkle_tree);
    create_tree(max_depth, max_buffer_size, &accounts.tree_authority, derived)
}

/// Plans the appending of a note: its entry is published first, then its leaf
/// is appended.
pub fn append_note(program_id: &[u8; 32], accounts: &NoteAccounts, note: String) -> (plan: Result<
    Operation,
    NoteError,
>)
    ensures
        planned(plan) == append_outcome(
            note_authority(program_id@, *accounts),
            note_leaf(note@, accounts.owner@),
            note_payload(note@, accounts.owner@),
        ),
        plan is Ok ==> is_append(plan.unwrap()@.steps),
{
    let leaf_node = leaf(note.as_str().as_bytes(), &accounts.owner);
    let note_log = create_note_log(leaf_node, accounts.owner, note);
    let payload = note_log.try_to_vec();
    proof {
        lemma_note_log_leaf(note_log@);
    }
    let derived = derive_authority(program_id, &accounts.merkle_tree);
    append(&accounts.tree_authority, derived, leaf_node, payload)
}

/// Plans the update of the note at `index` from `old_note` to `new_note`
/// under the root that the caller claims. A new note equal to the old one is
/// refused. Otherwise the old leaf is verified first; only then is the new
/// entry published and the leaf replaced.
pub fn update_note(
    program_id: &[u8; 32],
    accounts: &NoteAccounts,
    index: u32,
    root: [u8; 32],
    old_note: String,
    new_note: String,
) -> (plan: Result<Operation, NoteError>)
    ensures
        planned(plan) == update_outcome(
            note_authority(program_id@, *accounts),
            root@,
            index,
            old_note@,
            new_note@,
            note_leaf(old_note@, accounts.owner@),
            note_leaf(new_note@, accounts.owner@),
            note_payload(new_note@, accounts.owner@),
        ),
        plan is Ok ==> is_update(plan.unwrap()@.steps),
{
    let old_leaf = leaf(old_note.as_str().as_bytes(), &accounts.owner);
    let derived = derive_authority(program_id, &accounts.merkle_tree);
    let new_leaf = leaf(new_note.as_str().as_bytes(), &accounts.owner);
    let note_log = create_note_log(new_leaf, accounts.owner, new_note);
    let payload = note_log.try_to_vec();
    proof {
        lemma_note_log_leaf(note_log@);
    }
    update(
        &accounts.tree_authority,
        derived,
        index,
        root,
        old_note.as_str(),
        note_log.note.as_str(),
        old_leaf,
        new_leaf,
        payload,
    )
}

} // verus!
