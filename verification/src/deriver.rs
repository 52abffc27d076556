//! The shared-secret deriver: from one party's private key, the other
//! party's public key and a nonce to a symmetric key.

use vstd::prelude::*;
use crate::keys::{EphemeralPrivateKey, PublicKey};
use crate::primitives::{
    blake2b_keyed,
    blake2b_keyed_spec,
    is_key_pair,
    x25519_public_spec,
    x25519_shared,
    x25519_shared_spec,
};
use crate::sizes::{X25519_KEY_SIZE, XCHACHA20_POLY1305_KEY_SIZE, XCHACHA20_POLY1305_NONCE_SIZE};

verus! {

/// The key derived from a shared point and a nonce: the BLAKE2b digest of the
/// nonce under the shared point as key, as long as the cipher's key.
pub open spec fn derived_key_spec(shared: Seq<u8>, nonce: Seq<u8>) -> Seq<u8> {
    blake2b_keyed_spec(shared, XCHACHA20_POLY1305_KEY_SIZE as nat, nonce)
}

/// The key that the holder of `private` derives against `public`: the shared
/// point of the two, run through the key derivation with `nonce`.
pub open spec fn derive_spec(private: Seq<u8>, public: Seq<u8>, nonce: Seq<u8>) -> Seq<u8> {
    derived_key_spec(x25519_shared_spec(private, public), nonce)
}

/// Derives the symmetric key from a shared point and a nonce.
///
/// The shared point keys the hash and the nonce is its only message. The
/// result depends on the two arguments alone and is as wide as the cipher's
/// key.
pub fn derive_key(
    shared: &[u8; X25519_KEY_SIZE],
    nonce: &[u8; XCHACHA20_POLY1305_NONCE_SIZE],
) -> (key: Vec<u8>)
    ensures
        key@ == derived_key_spec(shared@, nonce@),
        key@.len() == XCHACHA20_POLY1305_KEY_SIZE,
{
    blake2b_keyed(shared.as_slice(), XCHACHA20_POLY1305_KEY_SIZE, nonce.as_slice())
}

/// Derives the symmetric key of one party, from its own private key and the
/// other party's public key. The private key is consumed.
///
/// The last clause is the agreement of the two parties: whoever holds the
/// private key that belongs to `their_public` derives this same key against
/// the public key of `my_private`, with the same nonce.
pub fn derive(
    my_private: EphemeralPrivateKey,
    their_public: &PublicKey,
    nonce: &[u8; XCHACHA20_POLY1305_NONCE_SIZE],
) -> (key: Vec<u8>)
    ensures
        key@ == derive_spec(my_private@, their_public@, nonce@),
        key@.len() == XCHACHA20_POLY1305_KEY_SIZE,
        forall|their_private: Seq<u8>| #[trigger]
            is_key_pair(their_private, their_public@) ==> key@ == derive_spec(
                their_private,
                x25519_public_spec(my_private@),
                nonce@,
            ),
{
    let scalar = my_private.into_scalar();
    let point = their_public.to_bytes();
    let shared = x25519_shared(&scalar, &point);
    derive_key(&shared, nonce)
}

/// Bob's key: derived from Bob's private key and Alice's public key.
pub fn derive_secret_for_bob(
    bob_private_key: EphemeralPrivateKey,
    alice_public_key: &PublicKey,
    nonce: &[u8; XCHACHA20_POLY1305_NONCE_SIZE],
) -> (key: Vec<u8>)
    ensures
        key@ == derive_spec(bob_private_key@, alice_public_key@, nonce@),
        key@.len() == XCHACHA20_POLY1305_KEY_SIZE,
        forall|alice_private: Seq<u8>| #[trigger]
            is_key_pair(alice_private, alice_public_key@) ==> key@ == derive_spec(
                alice_private,
                x25519_public_spec(bob_private_key@),
                nonce@,
            ),
{
    derive(bob_private_key, alice_public_key, nonce)
}

/// Alice's key: derived from Alice's private key and Bob's public key.
pub fn derive_secret_for_alice(
    alice_private_key: EphemeralPrivateKey,
    bob_public_key: &PublicKey,
    nonce: &[u8; XCHACHA20_POLY1305_NONCE_SIZE],
) -> (key: Vec<u8>)
    ensures
        key@ == derive_spec(alice_private_key@, bob_public_key@, nonce@),
        key@.len() == XCHACHA20_POLY1305_KEY_SIZE,
        forall|bob_private: Seq<u8>| #[trigger]
            is_key_pair(bob_private, bob_public_key@) ==> key@ == derive_spec(
                bob_private,
                x25519_public_spec(alice_private_key@),
                nonce@,
            ),
{
    derive(alice_private_key, bob_public_key, nonce)
}

/// The inputs of the key derivation have fixed widths: the shared point is
/// as wide as an X25519 key, the nonce as wide as the cipher's nonce.
pub proof fn lemma_input_widths(
    shared: &[u8; X25519_KEY_SIZE],
    nonce: &[u8; XCHACHA20_POLY1305_NONCE_SIZE],
)
    ensures
        shared@.len() == 32,
        nonce@.len() == 24,
{
}

/// Deriving is a function of the shared point and the nonce: equal inputs
/// give equal keys.
pub proof fn lemma_derivation_deterministic(
    shared_a: Seq<u8>,
    nonce_a: Seq<u8>,
    shared_b: Seq<u8>,
    nonce_b: Seq<u8>,
)
    requires
        shared_a == shared_b,
        nonce_a == nonce_b,
    ensures
        derived_key_spec(shared_a, nonce_a) == derived_key_spec(shared_b, nonce_b),
{
}

} // verus!
