//! Ed25519 primitive operations.
//!
//! Key derivation, signing and verification are deterministic functions of
//! their byte inputs (RFC 8032); key generation draws a fresh seed from the
//! operating system's secure random source.  The cryptographic work is done
//! by the ed25519-dalek crate behind the trusted functions of this module.

use ed25519_dalek::Signer;
use ed25519_dalek::Verifier;
use vstd::prelude::*;

verus! {

/// The 32-byte public key derived from a 32-byte seed.
pub uninterp spec fn ed25519_pub_of(seed: Seq<u8>) -> Seq<u8>;

/// The 64-byte signature of a message under the key derived from a seed.
pub uninterp spec fn ed25519_sig_of(seed: Seq<u8>, msg: Seq<u8>) -> Seq<u8>;

/// Whether a signature is a valid Ed25519 signature of a message under a
/// 32-byte public key.
pub uninterp spec fn ed25519_valid_sig(pk: Seq<u8>, msg: Seq<u8>, sig: Seq<u8>) -> bool;

/// Whether 32 bytes decompress to a point of the Ed25519 curve, and so can
/// act as a public key for verification.
pub uninterp spec fn ed25519_point_valid(pk: Seq<u8>) -> bool;

/// Relies on ed25519_dalek::SigningKey::generate with rand_core::OsRng: a
/// fresh 32-byte seed from the operating system's CSPRNG.  Nothing is
/// promised of the value beyond its length.
#[verifier::external_body]
pub(crate) fn random_seed() -> (r: Vec<u8>)
    ensures
        r@.len() == 32,
{
    let mut csprng = rand_core::OsRng;
    ed25519_dalek::SigningKey::generate(&mut csprng).to_bytes().to_vec()
}

/// Relies on ed25519_dalek::SigningKey::verifying_key: the public key is a
/// function of the seed alone, is 32 bytes long, and is a point of the
/// curve.
#[verifier::external_body]
pub(crate) fn derive_public(seed: &[u8]) -> (r: Vec<u8>)
    requires
        seed@.len() == 32,
    ensures
        r@ == ed25519_pub_of(seed@),
        r@.len() == 32,
        ed25519_point_valid(r@),
{
    let arr: [u8; 32] = seed.try_into().unwrap();
    let sk = ed25519_dalek::SigningKey::from_bytes(&arr);
    sk.verifying_key().to_bytes().to_vec()
}

/// Relies on ed25519_dalek's Signer::sign: Ed25519 signing is deterministic
/// in (seed, message), the signature is 64 bytes, and it is accepted by
/// Verifier::verify under the seed's own public key.
#[verifier::external_body]
pub(crate) fn sign_raw(seed: &[u8], msg: &[u8]) -> (r: Vec<u8>)
    requires
        seed@.len() == 32,
    ensures
        r@ == ed25519_sig_of(seed@, msg@),
        r@.len() == 64,
        ed25519_valid_sig(ed25519_pub_of(seed@), msg@, r@),
{
    let arr: [u8; 32] = seed.try_into().unwrap();
    let sk = ed25519_dalek::SigningKey::from_bytes(&arr);
    sk.sign(msg).to_bytes().to_vec()
}

/// Relies on ed25519_dalek::VerifyingKey::from_bytes, which fails exactly
/// when the 32 bytes are not a curve point, and on Verifier::verify, whose
/// outcome is a function of (public key, message, signature) alone.
#[verifier::external_body]
pub(crate) fn verify_raw(pk: &[u8], msg: &[u8], sig: &[u8]) -> (r: Option<bool>)
    requires
        pk@.len() == 32,
        sig@.len() == 64,
    ensures
        r is Some <==> ed25519_point_valid(pk@),
        r matches Some(valid) ==> valid == ed25519_valid_sig(pk@, msg@, sig@),
{
    let pa: [u8; 32] = pk.try_into().unwrap();
    let sa: [u8; 64] = sig.try_into().unwrap();
    match ed25519_dalek::VerifyingKey::from_bytes(&pa) {
        Ok(vk) => Some(vk.verify(msg, &ed25519_dalek::Signature::from_bytes(&sa)).is_ok()),
        Err(_) => None,
    }
}

} // verus!
