use anchor_lang::prelude::Pubkey;
use compressed_notes::authority::{authority_from, confirm_authority};
use compressed_notes::{derive_authority, Authority, NoteError};

const PROGRAM: [u8; 32] = [7u8; 32];

#[test]
fn authority_is_the_program_derived_address_of_the_tree() {
    let tree = [11u8; 32];
    let (address, bump) =
        Pubkey::find_program_address(&[&tree], &Pubkey::new_from_array(PROGRAM));
    assert_eq!(
        derive_authority(&PROGRAM, &tree),
        Some(Authority { address: address.to_bytes(), tree, bump }),
    );
}

#[test]
fn authority_is_not_the_tree_itself() {
    let tree = [11u8; 32];
    let authority = derive_authority(&PROGRAM, &tree).unwrap();
    assert_ne!(authority.address, tree);
    assert_ne!(authority.address, PROGRAM);
}

#[test]
fn deriving_twice_gives_the_same_authority() {
    let tree = [42u8; 32];
    assert_eq!(derive_authority(&PROGRAM, &tree), derive_authority(&PROGRAM, &tree));
}

#[test]
fn each_tree_has_its_own_authority() {
    let one = derive_authority(&PROGRAM, &[1u8; 32]).unwrap();
    let other = derive_authority(&PROGRAM, &[2u8; 32]).unwrap();
    assert_ne!(one.address, other.address);
}

#[test]
fn each_program_has_its_own_authority_for_a_tree() {
    let one = derive_authority(&[1u8; 32], &[5u8; 32]).unwrap();
    let other = derive_authority(&[2u8; 32], &[5u8; 32]).unwrap();
    assert_ne!(one.address, other.address);
}

#[test]
fn signer_seeds_are_the_tree_then_the_bump() {
    let authority = Authority { address: [1u8; 32], tree: [2u8; 32], bump: 254 };
    assert_eq!(authority.signer_seeds(), vec![vec![2u8; 32], vec![254u8]]);
}

#[test]
fn signer_seeds_derive_the_authority_again() {
    let tree = [11u8; 32];
    let authority = derive_authority(&PROGRAM, &tree).unwrap();
    let seeds = authority.signer_seeds();
    let seeds: Vec<&[u8]> = seeds.iter().map(|seed| seed.as_slice()).collect();
    let address =
        Pubkey::create_program_address(&seeds, &Pubkey::new_from_array(PROGRAM)).unwrap();
    assert_eq!(address.to_bytes(), authority.address);
}

#[test]
fn authority_from_each_outcome() {
    assert_eq!(authority_from([1u8; 32], None), None);
    assert_eq!(
        authority_from([1u8; 32], Some(([2u8; 32], 9))),
        Some(Authority { address: [2u8; 32], tree: [1u8; 32], bump: 9 }),
    );
}

#[test]
fn only_the_derived_authority_is_confirmed() {
    let authority = Authority { address: [1u8; 32], tree: [2u8; 32], bump: 255 };
    assert_eq!(confirm_authority(Some(authority), &[1u8; 32]), Ok(authority));
    assert_eq!(
        confirm_authority(Some(authority), &[3u8; 32]),
        Err(NoteError::AuthorityMismatch),
    );
    assert_eq!(confirm_authority(None, &[1u8; 32]), Err(NoteError::AuthorityMismatch));
}
