//! Stateless core of a small blockchain-instruction service.
//!
//! The crate turns untrusted string input (base58 addresses and secret keys,
//! base64 signatures, numeric amounts) into validated cryptographic
//! primitives and binary instruction payloads, and renders the results back
//! into a transport-safe response envelope.  Every operation is synchronous,
//! pure, and total: malformed input yields a structured error value, never a
//! panic.

pub mod codec;
pub mod create_token;
pub mod ed25519;
pub mod instruction;
pub mod keypair;
pub mod keys;
pub mod laws;
pub mod message_sign;
pub mod message_verify;
pub mod response;
pub mod send_sol;
pub mod send_token;
pub mod token_mint;
pub mod util;
pub mod validate;
