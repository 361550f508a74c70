//! The leaf codec: a record's leaf is the Keccak-256 digest of its content
//! followed by the identity that owns or sends it.

use vstd::prelude::*;

verus! {

/// The digest that Keccak-256 gives for the byte strings in `parts`, taken in
/// order as one message.
pub uninterp spec fn keccak_hashv(parts: Seq<Seq<u8>>) -> Seq<u8>;

/// The leaf of a record: the digest of its content bytes followed by the
/// identity bytes.
pub open spec fn leaf_of(content: Seq<u8>, identity: Seq<u8>) -> Seq<u8> {
    keccak_hashv(seq![content, identity])
}

/// Calls `solana_program::keccak::hashv` on the two byte strings, in this
/// order. Nothing is proved of the digest; it is only given its name.
#[verifier::external_body]
fn keccak_pair(first: &[u8], second: &[u8]) -> (digest: [u8; 32])
    ensures
        digest@ == keccak_hashv(seq![first@, second@]),
{
    anchor_lang::solana_program::keccak::hashv(&[first, second]).to_bytes()
}

/// Computes the leaf of a record from its content and the identity it
/// belongs to.
pub fn leaf(content: &[u8], identity: &[u8; 32]) -> (digest: [u8; 32])
    ensures
        digest@ == leaf_of(content@, identity@),
{
    keccak_pair(content, identity.as_slice())
}

/// Leaves computed from the same content and the same identity are the same
/// leaf, whenever and wherever they are computed.
pub proof fn lemma_leaf_repeatable(
    first: [u8; 32],
    second: [u8; 32],
    content: Seq<u8>,
    identity: Seq<u8>,
)
    requires
        first@ == leaf_of(content, identity),
        second@ == leaf_of(content, identity),
    ensures
        first == second,
{
    assert(first@ =~= second@);
    assert(first =~= second);
}

} // verus!
