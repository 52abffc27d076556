//! Diffie-Hellman key agreement over Curve25519 followed by derivation of a
//! symmetric key with keyed BLAKE2b.
//!
//! Two parties each hold an ephemeral key pair. Each combines its own private
//! key with the other's public key into a shared point and hashes a public
//! nonce under that point. The contracts in this crate state which bytes come
//! out and that both parties obtain the same ones.

pub mod sizes;
pub mod error;
pub mod primitives;
pub mod keys;
pub mod deriver;
pub mod exchange;
