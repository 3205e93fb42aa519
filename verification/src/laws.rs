//! Round-trip properties that hold across the library's operations.
//!
//! Each function here composes public operations and carries a contract
//! stating the composed outcome, so the property is checked by the verifier
//! rather than promised in prose: encodings invert, and signatures produced
//! by the library verify under the matching public key.

use crate::codec::decode_base58;
use crate::codec::decode_base64;
use crate::codec::encode_base58;
use crate::codec::encode_base64;
use crate::keys::generate_keypair;
use crate::keys::reconstruct_keypair;
use crate::keys::sign;
use crate::keys::verify;
use crate::keys::KeypairHandle;
use vstd::prelude::*;
use vstd::slice::slice_to_vec;

verus! {

/// Decoding the base58 encoding of any byte sequence gives the bytes back.
pub fn base58_round_trip(bytes: &[u8]) -> (r: Vec<u8>)
    ensures
        r@ == bytes@,
{
    let text = encode_base58(bytes);
    match decode_base58(text.as_str()) {
        Ok(v) => v,
        Err(_) => {
            proof {
                assert(false);
            }
            Vec::new()
        },
    }
}

/// Decoding the base64 encoding of any byte sequence gives the bytes back.
pub fn base64_round_trip(bytes: &[u8]) -> (r: Vec<u8>)
    ensures
        r@ == bytes@,
{
    let text = encode_base64(bytes);
    match decode_base64(text.as_str()) {
        Ok(v) => v,
        Err(_) => {
            proof {
                assert(false);
            }
            Vec::new()
        },
    }
}

/// A signature produced by `sign` verifies under the keypair's own public
/// key, for every keypair and every message.
pub fn sign_then_verify(kp: &KeypairHandle, message: &[u8]) -> (r: bool)
    requires
        kp.wf(),
    ensures
        r == crate::ed25519::ed25519_valid_sig(
            kp.public@,
            message@,
            crate::ed25519::ed25519_sig_of(kp.seed@, message@),
        ),
        r,
{
    let sig = sign(kp, message);
    let pk = crate::keys::PublicKey { bytes: slice_to_vec(kp.public.as_slice()) };
    match verify(&pk, message, sig.as_slice()) {
        Ok(valid) => valid,
        Err(_) => {
            proof {
                assert(false);
            }
            false
        },
    }
}

/// The keypair operation's rendered secret is usable wire material: it
/// decodes to exactly 64 bytes, the rendered public key decodes to their
/// second half, and handing the secret to the sign-message operation
/// succeeds, reporting that same public key.
pub fn rendered_keypair_signs(message: String) -> (r: bool)
    ensures
        r,
{
    let kr = crate::keypair::keypair();
    let d = match kr.data {
        Some(d) => d,
        None => {
            proof {
                assert(false);
            }
            return false;
        },
    };
    proof {
        let s = choose|seed: Seq<u8>|
            seed.len() == 32 && (#[trigger] crate::ed25519::ed25519_pub_of(seed)).len() == 32
                && crate::ed25519::ed25519_point_valid(crate::ed25519::ed25519_pub_of(seed))
                && d.pubkey@ == crate::codec::base58_of(crate::ed25519::ed25519_pub_of(seed))
                && d.secret@ == crate::codec::base58_of(
                seed + crate::ed25519::ed25519_pub_of(seed),
            );
        assert((s + crate::ed25519::ed25519_pub_of(s)).subrange(0, 32) =~= s);
        assert((s + crate::ed25519::ed25519_pub_of(s)).subrange(32, 64)
            =~= crate::ed25519::ed25519_pub_of(s));
    }
    let sec = match decode_base58(d.secret.as_str()) {
        Ok(v) => v,
        Err(_) => {
            proof {
                assert(false);
            }
            return false;
        },
    };
    let pkb = match decode_base58(d.pubkey.as_str()) {
        Ok(v) => v,
        Err(_) => {
            proof {
                assert(false);
            }
            return false;
        },
    };
    assert(sec@.len() == 64 && pkb@ == sec@.subrange(32, 64));
    let sr = crate::message_sign::sign_message(
        crate::message_sign::SignMessageRequest { message, secret: d.secret },
    );
    let sd = match sr.data {
        Some(sd) => sd,
        None => {
            proof {
                assert(false);
            }
            return false;
        },
    };
    assert(sd.public_key@ == d.pubkey@);
    sr.success && sd.public_key == d.pubkey
}

/// A freshly generated keypair survives the full journey: its secret
/// material, rendered as base58, reconstructs into a keypair whose
/// signatures verify under the generated public key.
pub fn generated_keypair_round_trip(message: &[u8]) -> (r: bool)
    ensures
        r,
{
    let (pk, material) = generate_keypair();
    let secret_text = material.to_base58();
    let kp = match reconstruct_keypair(secret_text.as_str()) {
        Ok(kp) => kp,
        Err(_) => {
            proof {
                assert(false);
            }
            return false;
        },
    };
    let sig = sign(&kp, message);
    match verify(&pk, message, sig.as_slice()) {
        Ok(valid) => valid,
        Err(_) => {
            proof {
                assert(false);
            }
            false
        },
    }
}

} // verus!
