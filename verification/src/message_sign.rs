//! The sign-message operation: reconstruct a keypair from base58 secret
//! material and produce the Ed25519 signature of a message.

use crate::codec::base58_decoded;
use crate::codec::base58_of;
use crate::codec::base64_of;
use crate::codec::encode_base58;
use crate::codec::encode_base64;
use crate::ed25519::ed25519_pub_of;
use crate::ed25519::ed25519_sig_of;
use crate::ed25519::ed25519_valid_sig;
use crate::keys::reconstruct_keypair;
use crate::keys::sign;
use crate::keys::KeyError;
use crate::response::resp_failed;
use crate::response::resp_success;
use crate::response::ApiResponse;
use vstd::prelude::*;
use vstd::utf8::encode_utf8;

verus! {

/// Inputs of the sign-message operation: the message text and the base58
/// 64-byte secret key material.
pub struct SignMessageRequest {
    pub message: String,
    pub secret: String,
}

/// The produced signature (base64), the signing public key (base58), and
/// the message echoed back.
pub struct SignMessageResponse {
    pub signature: String,
    pub public_key: String,
    pub message: String,
}

/// The outcome the sign-message operation owes for a request: the secret is
/// decoded, length-checked and consistency-checked, then the message's
/// UTF-8 bytes are signed.  The returned signature is the deterministic
/// Ed25519 signature of the message under the secret's seed, and it
/// verifies under the returned public key.
pub open spec fn sign_message_spec(req: SignMessageRequest, r: ApiResponse<SignMessageResponse>) -> bool {
    match base58_decoded(req.secret@) {
        Option::None => resp_failed(r, "Invalid base58-encoded secret key"@),
        Option::Some(sec) => if sec.len() != 64 {
            resp_failed(r, "Secret key must be 64 bytes"@)
        } else if sec.subrange(32, 64) != ed25519_pub_of(sec.subrange(0, 32)) {
            resp_failed(r, "Failed to parse secret key into Keypair"@)
        } else {
            resp_success(r) && (r.data matches Some(d) && {
                let msg = encode_utf8(req.message@);
                let sig = ed25519_sig_of(sec.subrange(0, 32), msg);
                &&& d.signature@ == base64_of(sig)
                &&& d.public_key@ == base58_of(sec.subrange(32, 64))
                &&& d.message@ == req.message@
                &&& ed25519_valid_sig(sec.subrange(32, 64), msg, sig)
            })
        },
    }
}

/// Sign a message with reconstructed secret key material.
///
/// The first clause restates decoding's round-trip law for the secret
/// field: on the base58 rendering of consistent 64-byte material — as the
/// keypair operation produces it — the operation is in its success case.
pub fn sign_message(req: SignMessageRequest) -> (r: ApiResponse<SignMessageResponse>)
    ensures
        forall|b: Seq<u8>| req.secret@ == base58_of(b) ==> base58_decoded(req.secret@) == Some(b),
        sign_message_spec(req, r),
{
    let kp = match reconstruct_keypair(req.secret.as_str()) {
        Err(KeyError::InvalidEncoding) => {
            return ApiResponse::error("Invalid base58-encoded secret key");
        },
        Err(KeyError::WrongByteLength) => {
            return ApiResponse::error("Secret key must be 64 bytes");
        },
        Err(_) => {
            return ApiResponse::error("Failed to parse secret key into Keypair");
        },
        Ok(kp) => kp,
    };
    let sig = sign(&kp, req.message.as_str().as_bytes());
    let d = SignMessageResponse {
        signature: encode_base64(sig.as_slice()),
        public_key: encode_base58(kp.public.as_slice()),
        message: req.message,
    };
    ApiResponse::success(d)
}

} // verus!
