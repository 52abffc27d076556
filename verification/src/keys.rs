//! Ephemeral key pairs.
//!
//! A private key is thirty-two secret bytes, owned by one party and given up
//! when it is used. A public key is the thirty-two bytes that the other party
//! receives. Both are viewed as byte sequences.

use vstd::prelude::*;
use crate::error::ExchangeError;
use crate::primitives::{is_key_pair, os_random_scalar, x25519_public, x25519_public_spec};
use crate::sizes::X25519_KEY_SIZE;

verus! {

/// A private scalar for one key agreement.
///
/// The type is neither `Clone` nor `Copy`, and deriving a key takes it by
/// value: a private key is used at most once.
pub struct EphemeralPrivateKey {
    scalar: [u8; X25519_KEY_SIZE],
}

impl View for EphemeralPrivateKey {
    type V = Seq<u8>;

    closed spec fn view(&self) -> Seq<u8> {
        self.scalar@
    }
}

impl EphemeralPrivateKey {
    /// The private key with the given scalar bytes.
    pub fn from_bytes(scalar: [u8; X25519_KEY_SIZE]) -> (key: Self)
        ensures
            key@ == scalar@,
    {
        EphemeralPrivateKey { scalar }
    }

    /// The public key that belongs to this private key.
    pub fn public_key(&self) -> (public: PublicKey)
        ensures
            is_key_pair(self@, public@),
    {
        PublicKey::from_bytes(x25519_public(&self.scalar))
    }

    /// The scalar bytes, for the one computation that consumes the key.
    pub(crate) fn into_scalar(self) -> (scalar: [u8; X25519_KEY_SIZE])
        ensures
            scalar@ == self@,
    {
        self.scalar
    }
}

/// A public key: the encoding of a group element, as received from the other
/// party. Every thirty-two bytes are accepted; the curve arithmetic reads them
/// as it sees fit.
#[derive(Clone, Copy, Debug)]
pub struct PublicKey {
    point: [u8; X25519_KEY_SIZE],
}

impl View for PublicKey {
    type V = Seq<u8>;

    closed spec fn view(&self) -> Seq<u8> {
        self.point@
    }
}

impl PublicKey {
    /// The public key with the given encoding.
    pub fn from_bytes(point: [u8; X25519_KEY_SIZE]) -> (key: Self)
        ensures
            key@ == point@,
    {
        PublicKey { point }
    }

    /// The encoding of this public key.
    pub fn to_bytes(&self) -> (point: [u8; X25519_KEY_SIZE])
        ensures
            point@ == self@,
    {
        self.point
    }
}

/// The key pair whose private scalar is `scalar`.
pub fn keypair_from_scalar(scalar: [u8; X25519_KEY_SIZE]) -> (pair: (
    EphemeralPrivateKey,
    PublicKey,
))
    ensures
        pair.0@ == scalar@,
        pair.1@ == x25519_public_spec(scalar@),
        is_key_pair(pair.0@, pair.1@),
{
    let private = EphemeralPrivateKey::from_bytes(scalar);
    let public = private.public_key();
    (private, public)
}

/// The key pair made from what the random source returned: the pair of the
/// bytes it gave, or `EntropyFailure` when it gave none.
pub fn keypair_from_entropy(entropy: Result<[u8; X25519_KEY_SIZE], rand::Error>) -> (outcome:
    Result<(EphemeralPrivateKey, PublicKey), ExchangeError>)
    ensures
        match entropy {
            Ok(scalar) => outcome matches Ok(pair) && pair.0@ == scalar@ && pair.1@
                == x25519_public_spec(scalar@),
            Err(_) => outcome == Err::<(EphemeralPrivateKey, PublicKey), ExchangeError>(
                ExchangeError::EntropyFailure,
            ),
        },
{
    match entropy {
        Ok(scalar) => Ok(keypair_from_scalar(scalar)),
        Err(_) => Err(ExchangeError::EntropyFailure),
    }
}

/// A fresh key pair, its private scalar drawn from the random source of the
/// operating system.
///
/// Whether the source answers is not for this crate to decide, so success is
/// not promised. What comes back is a key pair, or `EntropyFailure`.
pub fn generate_keypair() -> (outcome: Result<(EphemeralPrivateKey, PublicKey), ExchangeError>)
    ensures
        match outcome {
            Ok(pair) => is_key_pair(pair.0@, pair.1@),
            Err(error) => error == ExchangeError::EntropyFailure,
        },
{
    keypair_from_entropy(os_random_scalar())
}

} // verus!
