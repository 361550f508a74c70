//! Compressed notes: an append-only, tamper-evident log of short text records
//! whose Merkle tree lives in an external tree engine.

pub mod accounts;
pub mod authority;
mod bytes;
pub mod entry;
pub mod error;
pub mod hash;
pub mod history;
pub mod messages;
pub mod notes;
pub mod operation;
pub mod protocol;
pub mod request;

pub use accounts::{MessageAccounts, NoteAccounts};
pub use authority::{derive_authority, Authority};
pub use entry::{create_note_log, MessageLog, NoteLog};
pub use error::{ErrorClass, NoteError};
pub use hash::leaf;
pub use messages::{append_message, create_messages_tree, update_message};
pub use notes::{append_note, create_note_tree, update_note};
pub use operation::Operation;
pub use request::{Reply, Request};
