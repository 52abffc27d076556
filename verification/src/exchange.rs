//! The exchange between the two parties: each derives a key against the
//! other's public key, and the two keys are compared.

use vstd::prelude::*;
use crate::deriver::{derive_secret_for_alice, derive_secret_for_bob, derive_spec};
use crate::error::ExchangeError;
use crate::keys::{generate_keypair, EphemeralPrivateKey, PublicKey};
use crate::primitives::{is_key_pair, x25519_public_spec};
use crate::sizes::{X25519_KEY_SIZE, XCHACHA20_POLY1305_KEY_SIZE, XCHACHA20_POLY1305_NONCE_SIZE};

verus! {

/// Whether `key` is the key on which two parties agree when Alice holds the
/// private scalar `alice` and Bob holds `bob`: what each of them derives
/// against the public key of the other.
pub open spec fn is_common_key(key: Seq<u8>, alice: Seq<u8>, bob: Seq<u8>, nonce: Seq<u8>) -> bool {
    &&& alice.len() == X25519_KEY_SIZE
    &&& bob.len() == X25519_KEY_SIZE
    &&& key == derive_spec(bob, x25519_public_spec(alice), nonce)
    &&& key == derive_spec(alice, x25519_public_spec(bob), nonce)
}

/// The nonce of the demonstration: all bytes zero.
pub fn zero_nonce() -> (nonce: [u8; XCHACHA20_POLY1305_NONCE_SIZE])
    ensures
        forall|i: int| 0 <= i < XCHACHA20_POLY1305_NONCE_SIZE ==> nonce@[i] == 0,
{
    [0u8; XCHACHA20_POLY1305_NONCE_SIZE]
}

/// Whether two byte strings are the same, byte for byte.
pub fn keys_match(left: &[u8], right: &[u8]) -> (same: bool)
    ensures
        same == (left@ == right@),
{
    if left.len() != right.len() {
        return false;
    }
    let mut i: usize = 0;
    while i < left.len()
        invariant
            i <= left@.len(),
            left@.len() == right@.len(),
            forall|j: int| 0 <= j < i ==> left@[j] == right@[j],
        decreases left@.len() - i,
    {
        if left[i] != right[i] {
            return false;
        }
        i += 1;
    }
    assert(left@ =~= right@);
    true
}

/// The outcome of an exchange in which Bob derived `bob_key` and Alice
/// derived `alice_key`: the common key where the two are the same,
/// `KeyMismatch` where they differ.
pub fn agreed_key(bob_key: Vec<u8>, alice_key: Vec<u8>) -> (outcome: Result<
    Vec<u8>,
    ExchangeError,
>)
    ensures
        outcome == (if bob_key@ == alice_key@ {
            Ok::<Vec<u8>, ExchangeError>(bob_key)
        } else {
            Err::<Vec<u8>, ExchangeError>(ExchangeError::KeyMismatch)
        }),
{
    if keys_match(bob_key.as_slice(), alice_key.as_slice()) {
        Ok(bob_key)
    } else {
        Err(ExchangeError::KeyMismatch)
    }
}

/// Runs the exchange between Alice and Bob. Bob derives against Alice's
/// public key, Alice against Bob's, and the two keys are compared.
///
/// The outcome is the common key exactly when both derive the same key. That
/// is owed whenever each public key belongs to its owner's private key: the
/// two parties then agree, whatever the nonce.
pub fn exchange(
    alice_private_key: EphemeralPrivateKey,
    alice_public_key: &PublicKey,
    bob_private_key: EphemeralPrivateKey,
    bob_public_key: &PublicKey,
    nonce: &[u8; XCHACHA20_POLY1305_NONCE_SIZE],
) -> (outcome: Result<Vec<u8>, ExchangeError>)
    ensures
        match outcome {
            Ok(key) => {
                &&& key@ == derive_spec(bob_private_key@, alice_public_key@, nonce@)
                &&& key@ == derive_spec(alice_private_key@, bob_public_key@, nonce@)
                &&& key@.len() == XCHACHA20_POLY1305_KEY_SIZE
            },
            Err(error) => {
                &&& error == ExchangeError::KeyMismatch
                &&& derive_spec(bob_private_key@, alice_public_key@, nonce@) != derive_spec(
                    alice_private_key@,
                    bob_public_key@,
                    nonce@,
                )
            },
        },
        is_key_pair(alice_private_key@, alice_public_key@) && is_key_pair(
            bob_private_key@,
            bob_public_key@,
        ) ==> outcome is Ok,
{
    let bob_secret = derive_secret_for_bob(bob_private_key, alice_public_key, nonce);
    let alice_secret = derive_secret_for_alice(alice_private_key, bob_public_key, nonce);
    agreed_key(bob_secret, alice_secret)
}

/// Generates a key pair for each party and runs the exchange between them.
///
/// Fresh key pairs always agree, so the only failure left is that of the
/// random source. The scalars are drawn inside, so the contract can only say
/// that the key is the common key of some two of them.
pub fn exchange_with_fresh_keys(nonce: &[u8; XCHACHA20_POLY1305_NONCE_SIZE]) -> (outcome: Result<
    Vec<u8>,
    ExchangeError,
>)
    ensures
        match outcome {
            Ok(key) => {
                &&& key@.len() == XCHACHA20_POLY1305_KEY_SIZE
                &&& exists|alice: Seq<u8>, bob: Seq<u8>| #[trigger]
                    is_common_key(key@, alice, bob, nonce@)
            },
            Err(error) => error == ExchangeError::EntropyFailure,
        },
{
    let (alice_private_key, alice_public_key) = match generate_keypair() {
        Ok(pair) => pair,
        Err(error) => {
            return Err(error);
        },
    };
    let (bob_private_key, bob_public_key) = match generate_keypair() {
        Ok(pair) => pair,
        Err(error) => {
            return Err(error);
        },
    };
    let ghost alice = alice_private_key@;
    let ghost bob = bob_private_key@;
    let outcome = exchange(
        alice_private_key,
        &alice_public_key,
        bob_private_key,
        &bob_public_key,
        nonce,
    );
    proof {
        if outcome is Ok {
            assert(is_common_key(outcome->Ok_0@, alice, bob, nonce@));
        }
    }
    outcome
}

} // verus!
