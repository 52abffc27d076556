//! The cryptographic primitives, which this crate calls and does not prove.
//!
//! Each primitive is a function of its arguments alone, far too long to write
//! out here, so its result gets a name: an uninterpreted spec function over
//! byte sequences. The wrappers below are the only trusted code of the crate;
//! everything else is proved from their contracts.

use vstd::prelude::*;
use blake2::digest::{Update, VariableOutput};
use rand::RngCore;
use crate::sizes::{BLAKE2B_MAX_SIZE, X25519_KEY_SIZE};

verus! {

/// The public key that x25519-dalek computes for a private scalar: the
/// u-coordinate of the clamped scalar times the base point.
pub uninterp spec fn x25519_public_spec(scalar: Seq<u8>) -> Seq<u8>;

/// The shared point that x25519-dalek computes from a private scalar and a
/// public key: the u-coordinate of the clamped scalar times that point.
pub uninterp spec fn x25519_shared_spec(scalar: Seq<u8>, point: Seq<u8>) -> Seq<u8>;

/// The BLAKE2b digest of `message` under `key`, `output_size` bytes long.
pub uninterp spec fn blake2b_keyed_spec(
    key: Seq<u8>,
    output_size: nat,
    message: Seq<u8>,
) -> Seq<u8>;

/// Whether `public` is the public key that belongs to the private scalar
/// `private`.
pub open spec fn is_key_pair(private: Seq<u8>, public: Seq<u8>) -> bool {
    private.len() == X25519_KEY_SIZE && public == x25519_public_spec(private)
}

/// Public key of a private scalar, by `PublicKey::from(&StaticSecret)` of
/// x25519-dalek.
///
/// Trusted: the result is named, nothing more is claimed of it.
#[verifier::external_body]
pub(crate) fn x25519_public(scalar: &[u8; X25519_KEY_SIZE]) -> (point: [u8; X25519_KEY_SIZE])
    ensures
        point@ == x25519_public_spec(scalar@),
{
    x25519_dalek::PublicKey::from(&x25519_dalek::StaticSecret::from(*scalar)).to_bytes()
}

/// Shared point of a private scalar and a public key, by
/// `StaticSecret::diffie_hellman` of x25519-dalek.
///
/// Trusted. Besides naming the result, the contract states the agreement that
/// x25519-dalek documents for its key exchange: when `point` is the public key
/// of some private scalar, the holder of that scalar computes the same shared
/// point from the public key of `scalar`.
#[verifier::external_body]
pub(crate) fn x25519_shared(
    scalar: &[u8; X25519_KEY_SIZE],
    point: &[u8; X25519_KEY_SIZE],
) -> (shared: [u8; X25519_KEY_SIZE])
    ensures
        shared@ == x25519_shared_spec(scalar@, point@),
        forall|other: Seq<u8>| #[trigger]
            is_key_pair(other, point@) ==> shared@ == x25519_shared_spec(
                other,
                x25519_public_spec(scalar@),
            ),
{
    let secret = x25519_dalek::StaticSecret::from(*scalar);
    secret.diffie_hellman(&x25519_dalek::PublicKey::from(*point)).to_bytes()
}

/// Keyed BLAKE2b with a chosen output length, by `VarBlake2b::new_keyed`,
/// `update` and `finalize_boxed` of blake2.
///
/// Trusted: the result is named, and it is as long as was asked for. The
/// preconditions leave out the keys and lengths on which `new_keyed` panics.
#[verifier::external_body]
pub(crate) fn blake2b_keyed(key: &[u8], output_size: usize, message: &[u8]) -> (digest: Vec<u8>)
    requires
        key@.len() <= BLAKE2B_MAX_SIZE,
        1 <= output_size <= BLAKE2B_MAX_SIZE,
    ensures
        digest@ == blake2b_keyed_spec(key@, output_size as nat, message@),
        digest@.len() == output_size,
{
    let mut kdf = blake2::VarBlake2b::new_keyed(key, output_size);
    kdf.update(message);
    kdf.finalize_boxed().into()
}

/// The error with which rand reports that a random source gave no output.
#[verifier::external_type_specification]
#[verifier::external_body]
pub struct ExEntropyError(rand::Error);

/// Thirty-two bytes from the operating system's random source, by
/// `OsRng::try_fill_bytes` of rand.
///
/// Trusted, and nothing is claimed of the result: it differs from call to
/// call, and the source may fail.
#[verifier::external_body]
pub(crate) fn os_random_scalar() -> (entropy: Result<[u8; X25519_KEY_SIZE], rand::Error>) {
    let mut bytes = [0u8; X25519_KEY_SIZE];
    match rand::rngs::OsRng.try_fill_bytes(&mut bytes) {
        Ok(()) => Ok(bytes),
        Err(error) => Err(error),
    }
}

} // verus!
