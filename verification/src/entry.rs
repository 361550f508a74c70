//! Log entries: what is published for each record, and the byte layout in
//! which it is published.
//!
//! An entry is laid out as its leaf (32 bytes), its identities (32 bytes
//! each), the length of the content in bytes as a little-endian `u32`, and the
//! content in UTF-8.

use crate::bytes::{append_bytes, take_32};
use crate::error::NoteError;
use vstd::bytes::{
    lemma_auto_spec_u32_to_from_le_bytes, spec_u32_from_le_bytes, spec_u32_to_le_bytes,
    u32_from_le_bytes, u32_to_le_bytes,
};
use vstd::prelude::*;
use vstd::slice::{slice_subrange, slice_to_vec};
use vstd::utf8::{decode_utf8, encode_utf8, group_utf8_lib, valid_utf8};

verus! {

/// Whether a text is short enough for the length field.
pub open spec fn text_fits(text: Seq<char>) -> bool {
    encode_utf8(text).len() <= u32::MAX
}

/// A text on the wire: its length in bytes, then its bytes.
pub open spec fn text_encoding(text: Seq<char>) -> Seq<u8> {
    spec_u32_to_le_bytes(encode_utf8(text).len() as u32) + encode_utf8(text)
}

/// The text that `bytes` holds, if they are exactly one text on the wire.
pub open spec fn text_decoding(bytes: Seq<u8>) -> Option<Seq<char>> {
    if bytes.len() >= 4 && spec_u32_from_le_bytes(bytes.take(4)) == bytes.len() - 4 && valid_utf8(
        bytes.skip(4),
    ) {
        Some(decode_utf8(bytes.skip(4)))
    } else {
        None
    }
}

/// A text that fits is read back from its encoding.
pub proof fn lemma_text_round_trip(text: Seq<char>)
    requires
        text_fits(text),
    ensures
        text_decoding(text_encoding(text)) == Some(text),
{
    broadcast use group_utf8_lib;

    lemma_auto_spec_u32_to_from_le_bytes();
    let length = encode_utf8(text).len() as u32;
    let bytes = text_encoding(text);
    assert(bytes.take(4) == spec_u32_to_le_bytes(length));
    assert(bytes.skip(4) == encode_utf8(text));
}

/// Bytes that hold a text are the encoding of that text, and of no other.
pub proof fn lemma_text_decoding_exact(bytes: Seq<u8>)
    requires
        text_decoding(bytes) is Some,
    ensures
        text_fits(text_decoding(bytes).unwrap()),
        text_encoding(text_decoding(bytes).unwrap()) == bytes,
{
    broadcast use group_utf8_lib;

    lemma_auto_spec_u32_to_from_le_bytes();
    assert(bytes == bytes.take(4) + bytes.skip(4));
}

/// Calls `String::from_utf8`, which accepts exactly the byte strings that are
/// valid UTF-8 and then gives the text they encode.
#[verifier::external_body]
fn string_from_utf8(bytes: Vec<u8>) -> (text: Option<String>)
    ensures
        text.is_some() == valid_utf8(bytes@),
        text.is_some() ==> text.unwrap()@ == decode_utf8(bytes@),
{
    String::from_utf8(bytes).ok()
}

/// Appends a text in its wire form, unless it is too long.
fn append_text(out: &mut Vec<u8>, text: &str) -> (fits: bool)
    ensures
        fits == text_fits(text@),
        fits ==> final(out)@ == old(out)@ + text_encoding(text@),
        !fits ==> final(out)@ == old(out)@,
{
    let bytes = text.as_bytes();
    let length = bytes.len();
    if length > 0xffff_ffff {
        return false;
    }
    let prefix = u32_to_le_bytes(length as u32);
    append_bytes(out, prefix.as_slice());
    append_bytes(out, bytes);
    assert(out@ == old(out)@ + text_encoding(text@)) by {
        assert(out@ =~= old(out)@ + (prefix@ + bytes@));
    }
    true
}

/// Reads a text from its wire form.
fn read_text(bytes: &[u8]) -> (text: Option<String>)
    ensures
        text.is_some() == text_decoding(bytes@).is_some(),
        text.is_some() ==> Some(text.unwrap()@) == text_decoding(bytes@),
{
    let length = bytes.len();
    if length < 4 {
        return None;
    }
    let declared = u32_from_le_bytes(slice_subrange(bytes, 0, 4));
    if length - 4 > 0xffff_ffff || (length - 4) as u32 != declared {
        return None;
    }
    string_from_utf8(slice_to_vec(slice_subrange(bytes, 4, length)))
}

/// A note's log entry as contracts see it.
pub struct NoteLogView {
    pub leaf_node: Seq<u8>,
    pub owner: Seq<u8>,
    pub note: Seq<char>,
}

impl NoteLogView {
    /// Whether the entry can be put on the wire.
    pub open spec fn encodable(self) -> bool {
        self.leaf_node.len() == 32 && self.owner.len() == 32 && text_fits(self.note)
    }

    /// The entry on the wire.
    pub open spec fn encoding(self) -> Seq<u8> {
        self.leaf_node + self.owner + text_encoding(self.note)
    }
}

/// The note entry that `bytes` hold, if they are exactly one entry.
pub open spec fn note_log_decoding(bytes: Seq<u8>) -> Option<NoteLogView> {
    if bytes.len() >= 64 {
        match text_decoding(bytes.skip(64)) {
            Some(note) => Some(
                NoteLogView {
                    leaf_node: bytes.subrange(0, 32),
                    owner: bytes.subrange(32, 64),
                    note,
                },
            ),
            None => None,
        }
    } else {
        None
    }
}

/// The entry published for a note: enough for an observer to rebuild the
/// note and its place in the tree.
#[derive(Clone, Debug, PartialEq, Eq)]
pub struct NoteLog {
    /// The leaf that stands for the note in the tree.
    pub leaf_node: [u8; 32],
    /// The owner of the note.
    pub owner: [u8; 32],
    /// The content of the note.
    pub note: String,
}

impl View for NoteLog {
    type V = NoteLogView;

    open spec fn view(&self) -> NoteLogView {
        NoteLogView { leaf_node: self.leaf_node@, owner: self.owner@, note: self.note@ }
    }
}

/// Builds the log entry of a note.
pub fn create_note_log(leaf_node: [u8; 32], owner: [u8; 32], note: String) -> (entry: NoteLog)
    ensures
        entry.leaf_node == leaf_node,
        entry.owner == owner,
        entry.note == note,
{
    NoteLog { leaf_node, owner, note }
}

impl NoteLog {
    /// Puts the entry on the wire. Only a note of more than `u32::MAX` bytes
    /// is refused.
    pub fn try_to_vec(&self) -> (bytes: Result<Vec<u8>, NoteError>)
        ensures
            match bytes {
                Ok(bytes) => self@.encodable() && bytes@ == self@.encoding(),
                Err(error) => !self@.encodable() && error == NoteError::ContentTooLong,
            },
    {
        let mut bytes: Vec<u8> = Vec::new();
        append_bytes(&mut bytes, self.leaf_node.as_slice());
        append_bytes(&mut bytes, self.owner.as_slice());
        if append_text(&mut bytes, self.note.as_str()) {
            assert(bytes@ =~= self@.encoding());
            Ok(bytes)
        } else {
            Err(NoteError::ContentTooLong)
        }
    }

    /// Reads an entry back from the wire; `None` unless `bytes` are exactly
    /// one entry.
    pub fn try_from_slice(bytes: &[u8]) -> (entry: Option<NoteLog>)
        ensures
            entry.is_some() == note_log_decoding(bytes@).is_some(),
            entry.is_some() ==> Some(entry.unwrap()@) == note_log_decoding(bytes@),
    {
        let length = bytes.len();
        if length < 64 {
            return None;
        }
        let leaf_node = take_32(bytes, 0);
        let owner = take_32(bytes, 32);
        match read_text(slice_subrange(bytes, 64, length)) {
            Some(note) => Some(NoteLog { leaf_node, owner, note }),
            None => None,
        }
    }
}

/// A note entry that can be put on the wire is read back unchanged.
pub proof fn lemma_note_log_round_trip(entry: NoteLogView)
    requires
        entry.encodable(),
    ensures
        note_log_decoding(entry.encoding()) == Some(entry),
{
    let bytes = entry.encoding();
    lemma_text_round_trip(entry.note);
    assert(bytes.skip(64) == text_encoding(entry.note));
    assert(bytes.subrange(0, 32) == entry.leaf_node);
    assert(bytes.subrange(32, 64) == entry.owner);
}

/// Bytes that hold a note entry are the encoding of that entry.
pub proof fn lemma_note_log_decoding_exact(bytes: Seq<u8>)
    requires
        note_log_decoding(bytes) is Some,
    ensures
        note_log_decoding(bytes).unwrap().encodable(),
        note_log_decoding(bytes).unwrap().encoding() == bytes,
{
    lemma_text_decoding_exact(bytes.skip(64));
    assert(bytes == bytes.subrange(0, 32) + bytes.subrange(32, 64) + bytes.skip(64));
}

/// A message's log entry as contracts see it.
pub struct MessageLogView {
    pub leaf_node: Seq<u8>,
    pub from: Seq<u8>,
    pub to: Seq<u8>,
    pub message: Seq<char>,
}

impl MessageLogView {
    /// Whether the entry can be put on the wire.
    pub open spec fn encodable(self) -> bool {
        self.leaf_node.len() == 32 && self.from.len() == 32 && self.to.len() == 32 && text_fits(
            self.message,
        )
    }

    /// The entry on the wire.
    pub open spec fn encoding(self) -> Seq<u8> {
        self.leaf_node + self.from + self.to + text_encoding(self.message)
    }
}

/// The message entry that `bytes` hold, if they are exactly one entry.
pub open spec fn message_log_decoding(bytes: Seq<u8>) -> Option<MessageLogView> {
    if bytes.len() >= 96 {
        match text_decoding(bytes.skip(96)) {
            Some(message) => Some(
                MessageLogView {
                    leaf_node: bytes.subrange(0, 32),
                    from: bytes.subrange(32, 64),
                    to: bytes.subrange(64, 96),
                    message,
                },
            ),
            None => None,
        }
    } else {
        None
    }
}

/// The entry published for a message.
#[derive(Clone, Debug, PartialEq, Eq)]
pub struct MessageLog {
    /// The leaf that stands for the message in the tree.
    pub leaf_node: [u8; 32],
    /// The sender.
    pub from: [u8; 32],
    /// The recipient.
    pub to: [u8; 32],
    /// The content of the message.
    pub message: String,
}

impl View for MessageLog {
    type V = MessageLogView;

    open spec fn view(&self) -> MessageLogView {
        MessageLogView {
            leaf_node: self.leaf_node@,
            from: self.from@,
            to: self.to@,
            message: self.message@,
        }
    }
}

impl MessageLog {
    /// Puts the entry on the wire. Only a message of more than `u32::MAX`
    /// bytes is refused.
    pub fn try_to_vec(&self) -> (bytes: Result<Vec<u8>, NoteError>)
        ensures
            match bytes {
                Ok(bytes) => self@.encodable() && bytes@ == self@.encoding(),
                Err(error) => !self@.encodable() && error == NoteError::ContentTooLong,
            },
    {
        let mut bytes: Vec<u8> = Vec::new();
        append_bytes(&mut bytes, self.leaf_node.as_slice());
        append_bytes(&mut bytes, self.from.as_slice());
        append_bytes(&mut bytes, self.to.as_slice());
        if append_text(&mut bytes, self.message.as_str()) {
            assert(bytes@ =~= self@.encoding());
            Ok(bytes)
        } else {
            Err(NoteError::ContentTooLong)
        }
    }

    /// Reads an entry back from the wire; `None` unless `bytes` are exactly
    /// one entry.
    pub fn try_from_slice(bytes: &[u8]) -> (entry: Option<MessageLog>)
        ensures
            entry.is_some() == message_log_decoding(bytes@).is_some(),
            entry.is_some() ==> Some(entry.unwrap()@) == message_log_decoding(bytes@),
    {
        let length = bytes.len();
        if length < 96 {
            return None;
        }
        let leaf_node = take_32(bytes, 0);
        let from = take_32(bytes, 32);
        let to = take_32(bytes, 64);
        match read_text(slice_subrange(bytes, 96, length)) {
            Some(message) => Some(MessageLog { leaf_node, from, to, message }),
            None => None,
        }
    }
}

/// A message entry that can be put on the wire is read back unchanged.
pub proof fn lemma_message_log_round_trip(entry: MessageLogView)
    requires
        entry.encodable(),
    ensures
        message_log_decoding(entry.encoding()) == Some(entry),
{
    let bytes = entry.encoding();
    lemma_text_round_trip(entry.message);
    assert(bytes.skip(96) == text_encoding(entry.message));
    assert(bytes.subrange(0, 32) == entry.leaf_node);
    assert(bytes.subrange(32, 64) == entry.from);
    assert(bytes.subrange(64, 96) == entry.to);
}

/// Bytes that hold a message entry are the encoding of that entry.
pub proof fn lemma_message_log_decoding_exact(bytes: Seq<u8>)
    requires
        message_log_decoding(bytes) is Some,
    ensures
        message_log_decoding(bytes).unwrap().encodable(),
        message_log_decoding(bytes).unwrap().encoding() == bytes,
{
    lemma_text_decoding_exact(bytes.skip(96));
    assert(bytes == bytes.subrange(0, 32) + bytes.subrange(32, 64) + bytes.subrange(64, 96)
        + bytes.skip(96));
}

/// The leaf that a published entry of either kind begins with.
pub open spec fn entry_leaf(payload: Seq<u8>) -> Seq<u8> {
    payload.take(32)
}

/// A note entry on the wire begins with its leaf.
pub proof fn lemma_note_log_leaf(entry: NoteLogView)
    requires
        entry.leaf_node.len() == 32,
    ensures
        entry_leaf(entry.encoding()) == entry.leaf_node,
{
    assert(entry.encoding().take(32) =~= entry.leaf_node);
}

/// A message entry on the wire begins with its leaf.
pub proof fn lemma_message_log_leaf(entry: MessageLogView)
    requires
        entry.leaf_node.len() == 32,
    ensures
        entry_leaf(entry.encoding()) == entry.leaf_node,
{
    assert(entry.encoding().take(32) =~= entry.leaf_node);
}

} // verus!
