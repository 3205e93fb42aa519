//! Base58 and base64 text encodings for binary values.
//!
//! Chain addresses and secret keys travel as base58 text, signatures and
//! instruction payloads as base64 text.  Encoding is total; decoding rejects
//! any input that is not made of the respective alphabet, and decoding an
//! encoded value always gives the original bytes back.

use vstd::prelude::*;

verus! {

/// The base58 rendering (Bitcoin alphabet) of a byte sequence.
pub uninterp spec fn base58_of(b: Seq<u8>) -> Seq<char>;

/// What base58 decoding yields for a text: `None` when the text is rejected.
pub uninterp spec fn base58_decoded(s: Seq<char>) -> Option<Seq<u8>>;

/// The base64 rendering (standard alphabet, padded) of a byte sequence.
pub uninterp spec fn base64_of(b: Seq<u8>) -> Seq<char>;

/// What base64 decoding yields for a text: `None` when the text is rejected.
pub uninterp spec fn base64_decoded(s: Seq<char>) -> Option<Seq<u8>>;

/// Rejection of a text that no byte sequence encodes to.
#[derive(Debug, Clone, Copy, PartialEq, Eq, Structural)]
pub enum CodecError {
    InvalidEncoding,
}

/// Relies on bs58::encode with the default (Bitcoin) alphabet: the returned
/// text is a function of the input bytes alone.
#[verifier::external_body]
fn bs58_encode(b: &[u8]) -> (r: String)
    ensures
        r@ == base58_of(b@),
{
    bs58::encode(b).into_string()
}

/// Relies on bs58::decode with the default (Bitcoin) alphabet: it fails
/// exactly on characters outside the alphabet, its result is a function of
/// the text alone, and it inverts bs58::encode.
#[verifier::external_body]
fn bs58_decode(s: &str) -> (r: Result<Vec<u8>, CodecError>)
    ensures
        r is Ok <==> base58_decoded(s@) is Some,
        r matches Ok(v) ==> base58_decoded(s@) == Some(v@),
        r is Err ==> forall|b: Seq<u8>| s@ != base58_of(b),
        r matches Ok(v) ==> forall|b: Seq<u8>| s@ == base58_of(b) ==> v@ == b,
{
    match bs58::decode(s).into_vec() {
        Ok(v) => Ok(v),
        Err(_) => Err(CodecError::InvalidEncoding),
    }
}

/// Relies on base64::encode (standard alphabet, padded): the returned text is
/// a function of the input bytes alone.
#[verifier::external_body]
fn b64_encode(b: &[u8]) -> (r: String)
    ensures
        r@ == base64_of(b@),
{
    base64::encode(b)
}

/// Relies on base64::decode (standard alphabet): it rejects texts outside the
/// alphabet, its result is a function of the text alone, and it inverts
/// base64::encode.
#[verifier::external_body]
fn b64_decode(s: &str) -> (r: Result<Vec<u8>, CodecError>)
    ensures
        r is Ok <==> base64_decoded(s@) is Some,
        r matches Ok(v) ==> base64_decoded(s@) == Some(v@),
        r is Err ==> forall|b: Seq<u8>| s@ != base64_of(b),
        r matches Ok(v) ==> forall|b: Seq<u8>| s@ == base64_of(b) ==> v@ == b,
{
    match base64::decode(s) {
        Ok(v) => Ok(v),
        Err(_) => Err(CodecError::InvalidEncoding),
    }
}

/// Render bytes as base58 text.  Total: defined for every byte sequence.
pub fn encode_base58(bytes: &[u8]) -> (r: String)
    ensures
        r@ == base58_of(bytes@),
{
    bs58_encode(bytes)
}

/// Decode base58 text into bytes.
///
/// Succeeds exactly when the text is accepted by the base58 alphabet, and
/// decoding an encoded value gives the original bytes back (the round-trip
/// law): for every `b`, `decode_base58(encode_base58(b))` is `Ok(b)`.
pub fn decode_base58(text: &str) -> (r: Result<Vec<u8>, CodecError>)
    ensures
        r is Ok <==> base58_decoded(text@) is Some,
        r matches Ok(v) ==> base58_decoded(text@) == Some(v@),
        forall|b: Seq<u8>| text@ == base58_of(b) ==> (r matches Ok(v) && v@ == b),
{
    bs58_decode(text)
}

/// Render bytes as base64 text.  Total: defined for every byte sequence.
pub fn encode_base64(bytes: &[u8]) -> (r: String)
    ensures
        r@ == base64_of(bytes@),
{
    b64_encode(bytes)
}

/// Decode base64 text into bytes.
///
/// Succeeds exactly when the text is accepted by the base64 alphabet, and
/// decoding an encoded value gives the original bytes back (the round-trip
/// law): for every `b`, `decode_base64(encode_base64(b))` is `Ok(b)`.
pub fn decode_base64(text: &str) -> (r: Result<Vec<u8>, CodecError>)
    ensures
        r is Ok <==> base64_decoded(text@) is Some,
        r matches Ok(v) ==> base64_decoded(text@) == Some(v@),
        forall|b: Seq<u8>| text@ == base64_of(b) ==> (r matches Ok(v) && v@ == b),
{
    b64_decode(text)
}

} // verus!
