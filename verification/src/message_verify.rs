//! The verify-message operation: check an Ed25519 signature over a message
//! under a base58 public key.

use crate::codec::base58_decoded;
use crate::codec::base64_decoded;
use crate::codec::decode_base64;
use crate::ed25519::ed25519_point_valid;
use crate::ed25519::ed25519_valid_sig;
use crate::keys::parse_public_key;
use crate::keys::verify;
use crate::keys::KeyError;
use crate::response::resp_failed;
use crate::response::resp_success;
use crate::response::ApiResponse;
use crate::validate::is_blank;
use crate::validate::spec_blank;
use vstd::prelude::*;
use vstd::utf8::encode_utf8;

verus! {

/// Inputs of the verify-message operation: the message text, the base64
/// signature, and the base58 public key.
pub struct VerifyMessageRequest {
    pub message: String,
    pub signature: String,
    pub pubkey: String,
}

/// The verdict, with message and key echoed back.  `valid` distinguishes a
/// cryptographic mismatch from the malformed-input errors, which are
/// reported as failures instead.
pub struct VerifyMessageResponse {
    pub valid: bool,
    pub message: String,
    pub pubkey: String,
}

/// The outcome the verify-message operation owes for a request: presence of
/// the message, then shape checks on signature and key (length before
/// curve-point validity), then the cryptographic verdict.  `valid` is true
/// exactly when the signature is a valid Ed25519 signature of the message's
/// UTF-8 bytes under the key.
pub open spec fn verify_message_spec(
    req: VerifyMessageRequest,
    r: ApiResponse<VerifyMessageResponse>,
) -> bool {
    if spec_blank(req.message@) {
        resp_failed(r, "Message must not be empty"@)
    } else {
        match base64_decoded(req.signature@) {
            Option::None => resp_failed(r, "Invalid base64 signature"@),
            Option::Some(sig) => if sig.len() != 64 {
                resp_failed(r, "Signature must be 64 bytes"@)
            } else {
                match base58_decoded(req.pubkey@) {
                    Option::None => resp_failed(r, "Invalid base58 public key"@),
                    Option::Some(pk) => if pk.len() != 32 {
                        resp_failed(r, "Public key must be 32 bytes"@)
                    } else if !ed25519_point_valid(pk) {
                        resp_failed(r, "Malformed public key"@)
                    } else {
                        resp_success(r) && (r.data matches Some(d) && {
                            &&& d.valid == ed25519_valid_sig(pk, encode_utf8(req.message@), sig)
                            &&& d.message@ == req.message@
                            &&& d.pubkey@ == req.pubkey@
                        })
                    },
                }
            },
        }
    }
}

/// Verify a signature over a message.
pub fn verify_message(req: VerifyMessageRequest) -> (r: ApiResponse<VerifyMessageResponse>)
    ensures
        verify_message_spec(req, r),
{
    if is_blank(req.message.as_str()) {
        return ApiResponse::error("Message must not be empty");
    }
    let sig = match decode_base64(req.signature.as_str()) {
        Err(_) => {
            return ApiResponse::error("Invalid base64 signature");
        },
        Ok(v) => v,
    };
    if sig.len() != 64 {
        return ApiResponse::error("Signature must be 64 bytes");
    }
    let pk = match parse_public_key(req.pubkey.as_str()) {
        Err(KeyError::InvalidEncoding) => {
            return ApiResponse::error("Invalid base58 public key");
        },
        Err(_) => {
            return ApiResponse::error("Public key must be 32 bytes");
        },
        Ok(pk) => pk,
    };
    let valid = match verify(&pk, req.message.as_str().as_bytes(), sig.as_slice()) {
        Err(_) => {
            return ApiResponse::error("Malformed public key");
        },
        Ok(valid) => valid,
    };
    let d = VerifyMessageResponse { valid, message: req.message, pubkey: req.pubkey };
    ApiResponse::success(d)
}

} // verus!
