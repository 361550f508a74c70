//! The addresses an operation is called with.

use vstd::prelude::*;

verus! {

/// The accounts of an operation on notes.
#[derive(Clone, Copy, Debug, PartialEq, Eq)]
pub struct NoteAccounts {
    /// The owner of the note, who pays and signs.
    pub owner: [u8; 32],
    /// The authority of the tree: it only signs, and it must be the address
    /// derived from `merkle_tree`.
    pub tree_authority: [u8; 32],
    /// The tree that holds the notes.
    pub merkle_tree: [u8; 32],
    /// The program that records log entries.
    pub log_wrapper: [u8; 32],
    /// The program that maintains the tree.
    pub compression_program: [u8; 32],
}

/// The accounts of an operation on messages.
#[derive(Clone, Copy, Debug, PartialEq, Eq)]
pub struct MessageAccounts {
    /// The tree that holds the messages.
    pub merkle_tree: [u8; 32],
    /// The authority of the tree, derived from `merkle_tree`.
    pub tree_authority: [u8; 32],
    /// The sender, who signs.
    pub sender: [u8; 32],
    /// The recipient.
    pub recipient: [u8; 32],
    /// The program that maintains the tree.
    pub compression_program: [u8; 32],
    /// The program that records log entries.
    pub log_wrapper: [u8; 32],
}

} // verus!
