//! Key derivation from a shared point and a nonce, on fixed inputs.

use key_agreement::deriver::derive_key;
use key_agreement::sizes::{
    BLAKE2B_MAX_SIZE, X25519_KEY_SIZE, XCHACHA20_POLY1305_KEY_SIZE, XCHACHA20_POLY1305_NONCE_SIZE,
};

const MOCK_SHARED: [u8; 32] = [0x42; 32];

// BLAKE2b-256 of twenty-four zero bytes under the key above.
const MOCK_KEY_WITH_ZERO_NONCE: [u8; 32] = [
    0xff, 0xe9, 0x50, 0x96, 0xff, 0x5e, 0x07, 0x52, 0x2d, 0x14, 0xbb, 0x43, 0x8d, 0x36, 0x15, 0xb4,
    0xcb, 0x97, 0x64, 0x57, 0xbc, 0x91, 0xec, 0x7c, 0x53, 0xa9, 0xc2, 0xc5, 0x7d, 0x6f, 0x4c, 0x54,
];

// BLAKE2b-256 of the bytes 0, 1, .., 23 under the key above.
const MOCK_KEY_WITH_COUNTING_NONCE: [u8; 32] = [
    0x30, 0x3e, 0xf3, 0x32, 0x15, 0x3c, 0xa8, 0x4c, 0xb2, 0x5b, 0xd0, 0xa5, 0x70, 0xa2, 0xd2, 0xd8,
    0xbb, 0xb7, 0x82, 0xe7, 0x5b, 0x10, 0x49, 0x82, 0x64, 0x42, 0xd5, 0x5b, 0x21, 0x2b, 0x1e, 0x07,
];

// BLAKE2b-256 of twenty-four zero bytes under thirty-two zero bytes as key.
const ZERO_KEY_WITH_ZERO_NONCE: [u8; 32] = [
    0xcc, 0x9c, 0x5f, 0x63, 0x38, 0x70, 0xde, 0x94, 0x94, 0x5b, 0x46, 0xc8, 0xd4, 0x6e, 0x84, 0x56,
    0x21, 0x45, 0x7c, 0x6a, 0xc6, 0xe1, 0x1b, 0x34, 0x8f, 0xc3, 0x2f, 0xe5, 0x9d, 0x80, 0xbf, 0x41,
];

fn counting_nonce_bytes() -> [u8; 24] {
    let mut nonce = [0u8; 24];
    for (i, byte) in nonce.iter_mut().enumerate() {
        *byte = i as u8;
    }
    nonce
}

#[test]
fn derivation_is_deterministic() {
    let nonce = [0u8; 24];
    let first = derive_key(&MOCK_SHARED, &nonce);
    let second = derive_key(&MOCK_SHARED, &nonce);
    assert_eq!(first, second);
}

#[test]
fn derivation_gives_the_known_digest() {
    assert_eq!(derive_key(&MOCK_SHARED, &[0u8; 24]), MOCK_KEY_WITH_ZERO_NONCE.to_vec());
    assert_eq!(
        derive_key(&MOCK_SHARED, &counting_nonce_bytes()),
        MOCK_KEY_WITH_COUNTING_NONCE.to_vec()
    );
    assert_eq!(derive_key(&[0u8; 32], &[0u8; 24]), ZERO_KEY_WITH_ZERO_NONCE.to_vec());
}

#[test]
fn another_nonce_gives_another_key() {
    let with_zero = derive_key(&MOCK_SHARED, &[0u8; 24]);
    let with_counting = derive_key(&MOCK_SHARED, &counting_nonce_bytes());
    assert_ne!(with_zero, with_counting);
    let mut one_bit = [0u8; 24];
    one_bit[23] = 1;
    assert_ne!(with_zero, derive_key(&MOCK_SHARED, &one_bit));
}

#[test]
fn another_shared_point_gives_another_key() {
    let mut other = MOCK_SHARED;
    other[0] ^= 1;
    assert_ne!(derive_key(&MOCK_SHARED, &[0u8; 24]), derive_key(&other, &[0u8; 24]));
}

#[test]
fn derived_key_is_thirty_two_bytes() {
    assert_eq!(derive_key(&MOCK_SHARED, &[0u8; 24]).len(), 32);
    assert_eq!(derive_key(&[0u8; 32], &[0xffu8; 24]).len(), 32);
    let key = derive_key(&[0xffu8; 32], &counting_nonce_bytes());
    assert_eq!(key.len(), XCHACHA20_POLY1305_KEY_SIZE);
}

#[test]
fn derived_key_is_neither_argument() {
    let key = derive_key(&MOCK_SHARED, &[0u8; 24]);
    assert_ne!(key, MOCK_SHARED.to_vec());
    assert_ne!(key[..24], [0u8; 24][..]);
}

#[test]
fn widths_are_the_reference_sizes() {
    assert_eq!(XCHACHA20_POLY1305_KEY_SIZE, 32);
    assert_eq!(XCHACHA20_POLY1305_NONCE_SIZE, 24);
    assert_eq!(X25519_KEY_SIZE, 32);
    assert_eq!(BLAKE2B_MAX_SIZE, 64);
}
