//! The authority of a tree: a keyless identity derived from the tree's own
//! address, together with the seed material that proves the derivation.

use crate::bytes::same_32;
use crate::error::NoteError;
use vstd::prelude::*;

verus! {

/// The program-derived address and bump seed that the host's derivation gives
/// for `seeds` under `program_id`, or `None` where it finds none.
pub uninterp spec fn program_address(seeds: Seq<Seq<u8>>, program_id: Seq<u8>) -> Option<
    (Seq<u8>, u8),
>;

/// What the derivation gives for a tree: its only seed is the tree's address.
pub open spec fn authority_of(program_id: Seq<u8>, tree: Seq<u8>) -> Option<AuthorityView> {
    match program_address(seq![tree], program_id) {
        Some((address, bump)) => Some(AuthorityView { address, tree, bump }),
        None => None,
    }
}

/// An authority as contracts see it.
pub struct AuthorityView {
    pub address: Seq<u8>,
    pub tree: Seq<u8>,
    pub bump: u8,
}

/// The signing identity of one tree. It holds no key: a request is signed by
/// presenting the seeds from which the host can derive `address` again.
#[derive(Clone, Copy, Debug, PartialEq, Eq)]
pub struct Authority {
    /// The derived address.
    pub address: [u8; 32],
    /// The address of the tree it was derived from.
    pub tree: [u8; 32],
    /// The bump seed that completes the derivation.
    pub bump: u8,
}

impl View for Authority {
    type V = AuthorityView;

    open spec fn view(&self) -> AuthorityView {
        AuthorityView { address: self.address@, tree: self.tree@, bump: self.bump }
    }
}

impl AuthorityView {
    /// The seeds to present with a request: the tree's address, then the bump.
    pub open spec fn signer_seeds(self) -> Seq<Seq<u8>> {
        seq![self.tree, seq![self.bump]]
    }
}

impl Authority {
    /// The seed material that proves the derivation to the host.
    pub fn signer_seeds(&self) -> (seeds: Vec<Vec<u8>>)
        ensures
            seeds.deep_view() == self@.signer_seeds(),
    {
        let tree = vstd::slice::slice_to_vec(self.tree.as_slice());
        let bump = vec![self.bump];
        let seeds = vec![tree, bump];
        assert(seeds.deep_view() =~~= self@.signer_seeds());
        seeds
    }
}

/// Calls `Pubkey::try_find_program_address` with the tree's address as the
/// only seed. The address and bump it finds are only given their name.
#[verifier::external_body]
fn find_program_address(tree: &[u8; 32], program_id: &[u8; 32]) -> (found: Option<([u8; 32], u8)>)
    ensures
        match found {
            Some((address, bump)) => program_address(seq![tree@], program_id@) == Some(
                (address@, bump),
            ),
            None => program_address(seq![tree@], program_id@) is None,
        },
{
    let program = anchor_lang::prelude::Pubkey::new_from_array(*program_id);
    let found = anchor_lang::prelude::Pubkey::try_find_program_address(&[tree.as_slice()], &program);
    found.map(|(address, bump)| (address.to_bytes(), bump))
}

/// What `derive_authority` returns for each outcome of the host's derivation.
pub fn authority_from(tree: [u8; 32], found: Option<([u8; 32], u8)>) -> (authority: Option<
    Authority,
>)
    ensures
        match found {
            Some((address, bump)) => authority == Some(Authority { address, tree, bump }),
            None => authority is None,
        },
{
    match found {
        Some((address, bump)) => Some(Authority { address, tree, bump }),
        None => None,
    }
}

/// What a derived authority is to contracts.
pub open spec fn derived_view(derived: Option<Authority>) -> Option<AuthorityView> {
    match derived {
        Some(authority) => Some(authority@),
        None => None,
    }
}

/// Derives the authority of the tree at `tree` under the program `program_id`.
/// The same two addresses always give the same authority.
pub fn derive_authority(program_id: &[u8; 32], tree: &[u8; 32]) -> (authority: Option<Authority>)
    ensures
        derived_view(authority) == authority_of(program_id@, tree@),
{
    authority_from(*tree, find_program_address(tree, program_id))
}

/// The derived authority, if it is the one that the caller claims.
pub open spec fn confirmed(derived: Option<AuthorityView>, claimed: Seq<u8>) -> Option<
    AuthorityView,
> {
    match derived {
        Some(authority) => if authority.address == claimed {
            Some(authority)
        } else {
            None
        },
        None => None,
    }
}

/// Checks the authority that a caller hands in against the derived one: a
/// tree has exactly one authority, and no other may sign for it.
pub fn confirm_authority(derived: Option<Authority>, claimed: &[u8; 32]) -> (authority: Result<
    Authority,
    NoteError,
>)
    ensures
        match confirmed(derived_view(derived), claimed@) {
            Some(view) => authority is Ok && derived == Some(authority.unwrap())
                && authority.unwrap()@ == view,
            None => authority == Err::<Authority, NoteError>(NoteError::AuthorityMismatch),
        },
{
    match derived {
        Some(authority) => if same_32(&authority.address, claimed) {
            Ok(authority)
        } else {
            Err(NoteError::AuthorityMismatch)
        },
        None => Err(NoteError::AuthorityMismatch),
    }
}

} // verus!
