use anchor_lang::solana_program::keccak;
use compressed_notes::leaf;

#[test]
fn leaf_is_repeatable() {
    let identity = [9u8; 32];
    let first = leaf(b"hello", &identity);
    let second = leaf(b"hello", &identity);
    assert_eq!(first, second);
}

#[test]
fn leaf_is_keccak_of_content_then_identity() {
    let identity = [3u8; 32];
    let mut message = b"hello".to_vec();
    message.extend_from_slice(&identity);
    assert_eq!(leaf(b"hello", &identity), keccak::hash(&message).to_bytes());
}

#[test]
fn leaf_depends_on_the_order_of_its_parts() {
    let identity = [b'a'; 32];
    let mut swapped = identity.to_vec();
    swapped.extend_from_slice(b"hello");
    assert_ne!(leaf(b"hello", &identity), keccak::hash(&swapped).to_bytes());
}

#[test]
fn leaf_differs_by_identity() {
    assert_ne!(leaf(b"hello", &[1u8; 32]), leaf(b"hello", &[2u8; 32]));
}

#[test]
fn leaf_differs_by_content() {
    assert_ne!(leaf(b"v1", &[1u8; 32]), leaf(b"v2", &[1u8; 32]));
}

#[test]
fn leaf_of_empty_content_is_the_digest_of_the_identity() {
    let identity = [0u8; 32];
    let digest = leaf(b"", &identity);
    assert_eq!(digest, keccak::hash(&identity).to_bytes());
    assert_ne!(digest, identity);
}

#[test]
fn leaf_of_known_input() {
    // Keccak-256 of the empty message, a published test vector, must differ
    // from the leaf of an empty note, which also covers the identity.
    let empty = keccak::hash(b"").to_bytes();
    assert_eq!(
        empty[..4],
        [0xc5, 0xd2, 0x46, 0x01],
    );
    assert_ne!(leaf(b"", &[0u8; 32]), empty);
}
