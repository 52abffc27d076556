//! Widths, in bytes, of the values that move through the key agreement.

use vstd::prelude::*;

verus! {

/// Width of the derived symmetric key: the key size of XChaCha20-Poly1305.
pub const XCHACHA20_POLY1305_KEY_SIZE: usize = 32;

/// Width of the nonce that diversifies the derived key: the nonce size of
/// XChaCha20-Poly1305.
pub const XCHACHA20_POLY1305_NONCE_SIZE: usize = 24;

/// Width of an X25519 private scalar, public key and shared point.
pub const X25519_KEY_SIZE: usize = 32;

/// Longest key and longest output that BLAKE2b accepts.
pub const BLAKE2B_MAX_SIZE: usize = 64;

} // verus!
