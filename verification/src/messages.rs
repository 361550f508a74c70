//! Messages: records that a sender addresses to a recipient.

use crate::accounts::MessageAccounts;
use crate::authority::{authority_of, confirmed, derive_authority, AuthorityView};
use crate::entry::{lemma_message_log_leaf, text_fits, MessageLog, MessageLogView};
use crate::error::NoteError;
use crate::hash::{leaf, leaf_of};
use crate::history::{is_append, is_update};
use crate::operation::Operation;
use crate::protocol::{
    append, append_outcome, create_outcome, create_tree, planned, update, update_outcome,
};
use vstd::prelude::*;
use vstd::utf8::encode_utf8;

verus! {

/// The leaf of a message: the digest of its text in UTF-8 followed by its
/// sender.
pub open spec fn message_leaf(message: Seq<char>, sender: Seq<u8>) -> Seq<u8> {
    leaf_of(encode_utf8(message), sender)
}

/// The entry of a message on the wire, or `None` where the message is too
/// long.
pub open spec fn message_payload(message: Seq<char>, sender: Seq<u8>, recipient: Seq<u8>) -> Option<
    Seq<u8>,
> {
    if text_fits(message) {
        Some(
            MessageLogView {
                leaf_node: message_leaf(message, sender),
                from: sender,
                to: recipient,
                message,
            }.encoding(),
        )
    } else {
        None
    }
}

/// The authority that signs for the tree of `accounts`: the one derived from
/// the tree's address, provided that the accounts name it.
pub open spec fn message_authority(program_id: Seq<u8>, accounts: MessageAccounts) -> Option<
    AuthorityView,
> {
    confirmed(authority_of(program_id, accounts.merkle_tree@), accounts.tree_authority@)
}

/// Plans the creation of an empty tree for messages. A depth outside 3..=30
/// or a buffer size outside 8..=1024 is refused before anything is requested.
pub fn create_messages_tree(
    program_id: &[u8; 32],
    accounts: &MessageAccounts,
    max_depth: u32,
    max_buffer_size: u32,
) -> (plan: Result<Operation, NoteError>)
    ensures
        planned(plan) == create_outcome(
            max_depth,
            max_buffer_size,
            message_authority(program_id@, *accounts),
        ),
{
    let derived = derive_authority(program_id, &accounts.merkle_tree);
    create_tree(max_depth, max_buffer_size, &accounts.tree_authority, derived)
}

/// Plans the appending of a message from the sender to the recipient: its
/// entry is published first, then its leaf is appended.
pub fn append_message(program_id: &[u8; 32], accounts: &MessageAccounts, message: String) -> (plan:
    Result<Operation, NoteError>)
    ensures
        planned(plan) == append_outcome(
            message_authority(program_id@, *accounts),
            message_leaf(message@, accounts.sender@),
            message_payload(message@, accounts.sender@, accounts.recipient@),
        ),
        plan is Ok ==> is_append(plan.unwrap()@.steps),
{
    let leaf_node = leaf(message.as_str().as_bytes(), &accounts.sender);
    let entry = MessageLog { leaf_node, from: accounts.sender, to: accounts.recipient, message };
    let payload = entry.try_to_vec();
    proof {
        lemma_message_log_leaf(entry@);
    }
    let derived = derive_authority(program_id, &accounts.merkle_tree);
    append(&accounts.tree_authority, derived, leaf_node, payload)
}

/// Plans the update of the message at `index` from `old_message` to
/// `new_message` under the root that the caller claims. A new message equal
/// to the old one is refused. Otherwise the old leaf is verified first; only
/// then is the new entry published and the leaf replaced.
pub fn update_message(
    program_id: &[u8; 32],
    accounts: &MessageAccounts,
    index: u32,
    root: [u8; 32],
    old_message: String,
    new_message: String,
) -> (plan: Result<Operation, NoteError>)
    ensures
        planned(plan) == update_outcome(
            message_authority(program_id@, *accounts),
            root@,
            index,
            old_message@,
            new_message@,
            message_leaf(old_message@, accounts.sender@),
            message_leaf(new_message@, accounts.sender@),
            message_payload(new_message@, accounts.sender@, accounts.recipient@),
        ),
        plan is Ok ==> is_update(plan.unwrap()@.steps),
{
    let old_leaf = leaf(old_message.as_str().as_bytes(), &accounts.sender);
    let derived = derive_authority(program_id, &accounts.merkle_tree);
    let new_leaf = leaf(new_message.as_str().as_bytes(), &accounts.sender);
    let entry = MessageLog {
        leaf_node: new_leaf,
        from: accounts.sender,
        to: accounts.recipient,
        message: new_message,
    };
    let payload = entry.try_to_vec();
    proof {
        lemma_message_log_leaf(entry@);
    }
    update(
        &accounts.tree_authority,
        derived,
        index,
        root,
        old_message.as_str(),
        entry.message.as_str(),
        old_leaf,
        new_leaf,
        payload,
    )
}

} // verus!
