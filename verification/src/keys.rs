//! Key material: public keys, secret key material, keypair handles.
//!
//! A public key is exactly 32 bytes; secret key material is exactly 64 bytes,
//! the 32-byte seed followed by the 32-byte public key derived from it.  A
//! keypair handle is only ever built from consistent halves.

use crate::codec::base58_decoded;
use crate::codec::decode_base58;
use crate::ed25519::derive_public;
use crate::ed25519::ed25519_point_valid;
use crate::ed25519::ed25519_pub_of;
use crate::ed25519::ed25519_sig_of;
use crate::ed25519::ed25519_valid_sig;
use crate::ed25519::random_seed;
use crate::ed25519::sign_raw;
use crate::ed25519::verify_raw;
use crate::util::bytes_eq;
use crate::util::push_all;
use vstd::prelude::*;
use vstd::slice::slice_subrange;
use vstd::slice::slice_to_vec;

verus! {

/// Rejection of key or signature material.
#[derive(Debug, Clone, Copy, PartialEq, Eq, Structural)]
pub enum KeyError {
    /// The text is not valid base58 / base64.
    InvalidEncoding,
    /// The decoded bytes do not have the required length (32 or 64).
    WrongByteLength,
    /// The bytes have the right length but do not form a valid
    /// cryptographic object.
    MalformedKey,
}

/// A 32-byte account address / verification key.
#[derive(Debug)]
pub struct PublicKey {
    pub bytes: Vec<u8>,
}

impl View for PublicKey {
    type V = Seq<u8>;

    open spec fn view(&self) -> Seq<u8> {
        self.bytes@
    }
}

impl PublicKey {
    /// A public key is exactly 32 bytes.
    pub open spec fn wf(&self) -> bool {
        self@.len() == 32
    }

    /// Wrap 32 raw bytes as a public key.
    pub fn from_bytes(bytes: Vec<u8>) -> (r: Self)
        requires
            bytes@.len() == 32,
        ensures
            r@ == bytes@,
            r.wf(),
    {
        PublicKey { bytes }
    }

    /// Render the key as base58 text.
    pub fn to_base58(&self) -> (r: String)
        ensures
            r@ == crate::codec::base58_of(self@),
    {
        crate::codec::encode_base58(self.bytes.as_slice())
    }

    /// An independent copy of the key.
    pub fn duplicate(&self) -> (r: Self)
        ensures
            r@ == self@,
    {
        PublicKey { bytes: slice_to_vec(self.bytes.as_slice()) }
    }
}

/// 64 bytes of secret key material: seed followed by derived public key.
/// Lives only for the duration of one request.
#[derive(Debug)]
pub struct SecretKeyMaterial {
    pub bytes: Vec<u8>,
}

impl View for SecretKeyMaterial {
    type V = Seq<u8>;

    open spec fn view(&self) -> Seq<u8> {
        self.bytes@
    }
}

impl SecretKeyMaterial {
    /// 64 bytes, and the second half is derived from the first.
    pub open spec fn wf(&self) -> bool {
        &&& self@.len() == 64
        &&& self@.subrange(32, 64) == ed25519_pub_of(self@.subrange(0, 32))
    }

    /// Render the material as base58 text.
    pub fn to_base58(&self) -> (r: String)
        ensures
            r@ == crate::codec::base58_of(self@),
    {
        crate::codec::encode_base58(self.bytes.as_slice())
    }
}

/// A reconstructed keypair: 32-byte seed and its derived public key.
#[derive(Debug)]
pub struct KeypairHandle {
    pub seed: Vec<u8>,
    pub public: Vec<u8>,
}

impl KeypairHandle {
    /// The halves are consistent: the public half is derived from the seed,
    /// and is therefore a valid curve point.
    pub open spec fn wf(&self) -> bool {
        &&& self.seed@.len() == 32
        &&& self.public@.len() == 32
        &&& self.public@ == ed25519_pub_of(self.seed@)
        &&& ed25519_point_valid(self.public@)
    }
}

/// Generate a fresh keypair from the secure random source.
///
/// The returned public key is derived from the fresh seed, and the secret
/// material is the seed followed by that public key.
pub fn generate_keypair() -> (r: (PublicKey, SecretKeyMaterial))
    ensures
        r.0.wf(),
        r.1.wf(),
        ed25519_point_valid(r.0@),
        r.0@ == r.1@.subrange(32, 64),
        exists|seed: Seq<u8>|
            seed.len() == 32 && r.0@ == #[trigger] ed25519_pub_of(seed) && r.1@ == seed
                + ed25519_pub_of(seed),
{
    let seed = random_seed();
    let public = derive_public(seed.as_slice());
    let mut material = slice_to_vec(seed.as_slice());
    push_all(&mut material, public.as_slice());
    proof {
        assert(material@.subrange(0, 32) =~= seed@);
        assert(material@.subrange(32, 64) =~= public@);
    }
    (PublicKey { bytes: public }, SecretKeyMaterial { bytes: material })
}

/// What parsing a public key from base58 text yields: the decoded bytes
/// when the text decodes to exactly 32 bytes, `None` otherwise.
pub open spec fn spec_parse_pubkey(s: Seq<char>) -> Option<Seq<u8>> {
    match base58_decoded(s) {
        Option::Some(b) => if b.len() == 32 {
            Option::Some(b)
        } else {
            Option::None
        },
        Option::None => Option::None,
    }
}

/// Parse base58 text into a 32-byte public key.
///
/// Fails with `InvalidEncoding` when the text is not base58, and with
/// `WrongByteLength` when the decoded bytes are not exactly 32.
pub fn parse_public_key(text: &str) -> (r: Result<PublicKey, KeyError>)
    ensures
        match base58_decoded(text@) {
            Option::None => r == Err::<PublicKey, KeyError>(KeyError::InvalidEncoding),
            Option::Some(b) => if b.len() != 32 {
                r == Err::<PublicKey, KeyError>(KeyError::WrongByteLength)
            } else {
                r matches Ok(pk) && pk@ == b && pk.wf()
            },
        },
{
    match decode_base58(text) {
        Err(_) => Err(KeyError::InvalidEncoding),
        Ok(v) => {
            if v.len() != 32 {
                Err(KeyError::WrongByteLength)
            } else {
                Ok(PublicKey { bytes: v })
            }
        },
    }
}

/// Rebuild a keypair from base58 secret key material.
///
/// Fails with `InvalidEncoding` when the text is not base58, with
/// `WrongByteLength` when the decoded bytes are not exactly 64, and with
/// `MalformedKey` when the stored public half is not the one derived from
/// the seed half.
///
/// Reconstruction inverts rendering: on the base58 text of consistent
/// 64-byte material (as `generate_keypair` produces it), it succeeds and
/// returns that material's halves.
pub fn reconstruct_keypair(secret_text: &str) -> (r: Result<KeypairHandle, KeyError>)
    ensures
        forall|b: Seq<u8>| secret_text@ == crate::codec::base58_of(b) ==> base58_decoded(
            secret_text@,
        ) == Some(b),
        match base58_decoded(secret_text@) {
            Option::None => r == Err::<KeypairHandle, KeyError>(KeyError::InvalidEncoding),
            Option::Some(b) => if b.len() != 64 {
                r == Err::<KeypairHandle, KeyError>(KeyError::WrongByteLength)
            } else if b.subrange(32, 64) != ed25519_pub_of(b.subrange(0, 32)) {
                r == Err::<KeypairHandle, KeyError>(KeyError::MalformedKey)
            } else {
                r matches Ok(kp) && kp.wf() && kp.seed@ == b.subrange(0, 32) && kp.public@
                    == b.subrange(32, 64)
            },
        },
{
    let v = match decode_base58(secret_text) {
        Err(_) => {
            return Err(KeyError::InvalidEncoding);
        },
        Ok(v) => v,
    };
    if v.len() != 64 {
        return Err(KeyError::WrongByteLength);
    }
    let seed = slice_to_vec(slice_subrange(v.as_slice(), 0, 32));
    let stored = slice_subrange(v.as_slice(), 32, 64);
    let derived = derive_public(seed.as_slice());
    if !bytes_eq(derived.as_slice(), stored) {
        return Err(KeyError::MalformedKey);
    }
    Ok(KeypairHandle { seed, public: derived })
}

/// Sign a message with a keypair.
///
/// Ed25519 signing is deterministic: the same keypair and message always
/// give the same 64-byte signature, and that signature verifies under the
/// keypair's public key.
pub fn sign(kp: &KeypairHandle, message: &[u8]) -> (sig: Vec<u8>)
    requires
        kp.wf(),
    ensures
        sig@ == ed25519_sig_of(kp.seed@, message@),
        sig@.len() == 64,
        ed25519_valid_sig(kp.public@, message@, sig@),
{
    sign_raw(kp.seed.as_slice(), message)
}

/// Verify a signature over a message under a public key.
///
/// Returns `Ok(valid)` whenever the inputs are well-shaped: a cryptographic
/// mismatch is `Ok(false)`, not an error.  Fails with `WrongByteLength` when
/// the signature is not 64 bytes, and with `MalformedKey` when the key bytes
/// are not a curve point.
pub fn verify(pk: &PublicKey, message: &[u8], signature: &[u8]) -> (r: Result<bool, KeyError>)
    requires
        pk.wf(),
    ensures
        signature@.len() != 64 ==> r == Err::<bool, KeyError>(KeyError::WrongByteLength),
        signature@.len() == 64 && !ed25519_point_valid(pk@) ==> r == Err::<bool, KeyError>(
            KeyError::MalformedKey,
        ),
        signature@.len() == 64 && ed25519_point_valid(pk@) ==> r == Ok::<bool, KeyError>(
            ed25519_valid_sig(pk@, message@, signature@),
        ),
{
    if signature.len() != 64 {
        return Err(KeyError::WrongByteLength);
    }
    match verify_raw(pk.bytes.as_slice(), message, signature) {
        Some(valid) => Ok(valid),
        None => Err(KeyError::MalformedKey),
    }
}

} // verus!
