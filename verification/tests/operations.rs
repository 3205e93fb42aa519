//! Tests of the request-level operations and their response envelopes.

use solcore::codec::{decode_base58, decode_base64, encode_base58, encode_base64};
use solcore::create_token::{create_token, CreateTokenRequest};
use solcore::keypair::keypair;
use solcore::message_sign::{sign_message, SignMessageRequest};
use solcore::message_verify::{verify_message, VerifyMessageRequest};
use solcore::response::ApiResponse;
use solcore::send_sol::{send_sol, SendSolRequest};
use solcore::send_token::{send_token, SendTokenRequest};
use solcore::token_mint::{mint_token, MintTokenRequest};

fn error_of<T>(r: &ApiResponse<T>) -> String {
    assert!(!r.success);
    assert!(r.data.is_none());
    r.error.clone().unwrap()
}

fn fresh_keypair_strings() -> (String, String) {
    let r = keypair();
    assert!(r.success);
    assert!(r.error.is_none());
    let d = r.data.unwrap();
    (d.pubkey, d.secret)
}

#[test]
fn keypair_generates_consistent_material() {
    let (pubkey, secret) = fresh_keypair_strings();
    let pk = decode_base58(&pubkey).unwrap();
    let sec = decode_base58(&secret).unwrap();
    assert_eq!(pk.len(), 32);
    assert_eq!(sec.len(), 64);
    assert_eq!(&sec[32..], &pk[..]);
}

#[test]
fn keypair_secrets_differ_between_calls() {
    let (_, s1) = fresh_keypair_strings();
    let (_, s2) = fresh_keypair_strings();
    assert_ne!(s1, s2);
}

#[test]
fn create_token_rejects_blank_fields() {
    let r = create_token(CreateTokenRequest {
        mint_authority: "  ".to_string(),
        mint: encode_base58(&[1u8; 32]),
        decimals: 6,
    });
    assert_eq!(
        error_of(&r),
        "Mint and Mint Authority fields cannot be empty"
    );
}

#[test]
fn blank_checks_cover_unicode_whitespace() {
    let r = create_token(CreateTokenRequest {
        mint_authority: encode_base58(&[2u8; 32]),
        mint: "\u{00A0}\u{2003}".to_string(),
        decimals: 6,
    });
    assert_eq!(
        error_of(&r),
        "Mint and Mint Authority fields cannot be empty"
    );
    let r = send_sol(SendSolRequest {
        from: "\u{2028}\u{0085}\u{3000}".to_string(),
        to: encode_base58(&[2u8; 32]),
        lamports: 5,
    });
    assert_eq!(
        error_of(&r),
        "Both sender and recipient public keys are required"
    );
    let (pubkey, _) = fresh_keypair_strings();
    let r = verify_message(VerifyMessageRequest {
        message: "\u{205F}".to_string(),
        signature: encode_base64(&[0u8; 64]),
        pubkey,
    });
    assert_eq!(error_of(&r), "Message must not be empty");
}

#[test]
fn create_token_rejects_decimals_nineteen() {
    let r = create_token(CreateTokenRequest {
        mint_authority: encode_base58(&[2u8; 32]),
        mint: encode_base58(&[1u8; 32]),
        decimals: 19,
    });
    assert_eq!(error_of(&r), "Decimals must be between 0 and 18");
}

#[test]
fn create_token_accepts_decimals_zero_and_eighteen() {
    for decimals in [0u8, 18] {
        let r = create_token(CreateTokenRequest {
            mint_authority: encode_base58(&[2u8; 32]),
            mint: encode_base58(&[1u8; 32]),
            decimals,
        });
        assert!(r.success, "decimals {} should be accepted", decimals);
        let d = r.data.unwrap();
        assert_eq!(d.program_id, "TokenkegQfeZyiNwAJbNbGKPFXCWuBvf9Ss623VQ5DA");
        let data = decode_base64(&d.instruction_data).unwrap();
        assert_eq!(data[0], 0);
        assert_eq!(data[1], decimals);
        assert_eq!(&data[2..34], &[2u8; 32]);
        assert_eq!(data[34], 0);
    }
}

#[test]
fn create_token_rejects_bad_keys() {
    let r = create_token(CreateTokenRequest {
        mint_authority: encode_base58(&[2u8; 32]),
        mint: "not-base58!".to_string(),
        decimals: 6,
    });
    assert_eq!(error_of(&r), "Invalid base58 public key");
    let r = create_token(CreateTokenRequest {
        mint_authority: encode_base58(&[2u8; 31]),
        mint: encode_base58(&[1u8; 32]),
        decimals: 6,
    });
    assert_eq!(error_of(&r), "Invalid base58 public key");
}

#[test]
fn create_token_renders_accounts_in_order() {
    let r = create_token(CreateTokenRequest {
        mint_authority: encode_base58(&[2u8; 32]),
        mint: encode_base58(&[1u8; 32]),
        decimals: 9,
    });
    let d = r.data.unwrap();
    assert_eq!(d.accounts.len(), 2);
    assert_eq!(d.accounts[0].pubkey, encode_base58(&[1u8; 32]));
    assert!(!d.accounts[0].is_signer && d.accounts[0].is_writable);
    assert_eq!(
        d.accounts[1].pubkey,
        "SysvarRent111111111111111111111111111111111"
    );
    assert!(!d.accounts[1].is_signer && !d.accounts[1].is_writable);
}

#[test]
fn mint_token_rejects_blank_and_zero_amount() {
    let r = mint_token(MintTokenRequest {
        mint: "".to_string(),
        destination: encode_base58(&[2u8; 32]),
        authority: encode_base58(&[3u8; 32]),
        amount: 5,
    });
    assert_eq!(
        error_of(&r),
        "All fields (mint, destination, authority) are required"
    );
    let r = mint_token(MintTokenRequest {
        mint: encode_base58(&[1u8; 32]),
        destination: encode_base58(&[2u8; 32]),
        authority: encode_base58(&[3u8; 32]),
        amount: 0,
    });
    assert_eq!(error_of(&r), "Amount must be greater than 0");
}

#[test]
fn mint_token_names_the_offending_field() {
    let good = encode_base58(&[1u8; 32]);
    let r = mint_token(MintTokenRequest {
        mint: "!!".to_string(),
        destination: good.clone(),
        authority: good.clone(),
        amount: 5,
    });
    assert_eq!(error_of(&r), "Invalid base58 public key in field: mint");
    let r = mint_token(MintTokenRequest {
        mint: good.clone(),
        destination: encode_base58(&[2u8; 30]),
        authority: good.clone(),
        amount: 5,
    });
    assert_eq!(
        error_of(&r),
        "Invalid base58 public key in field: destination"
    );
    let r = mint_token(MintTokenRequest {
        mint: good.clone(),
        destination: good.clone(),
        authority: "?".to_string(),
        amount: 5,
    });
    assert_eq!(error_of(&r), "Invalid base58 public key in field: authority");
}

#[test]
fn mint_token_builds_the_mint_to_instruction() {
    let r = mint_token(MintTokenRequest {
        mint: encode_base58(&[1u8; 32]),
        destination: encode_base58(&[2u8; 32]),
        authority: encode_base58(&[3u8; 32]),
        amount: 256,
    });
    assert!(r.success);
    let d = r.data.unwrap();
    assert_eq!(d.program_id, "TokenkegQfeZyiNwAJbNbGKPFXCWuBvf9Ss623VQ5DA");
    assert_eq!(d.accounts.len(), 3);
    assert_eq!(d.accounts[0].pubkey, encode_base58(&[1u8; 32]));
    assert!(d.accounts[0].is_writable && !d.accounts[0].is_signer);
    assert_eq!(d.accounts[1].pubkey, encode_base58(&[2u8; 32]));
    assert!(d.accounts[1].is_writable && !d.accounts[1].is_signer);
    assert_eq!(d.accounts[2].pubkey, encode_base58(&[3u8; 32]));
    assert!(d.accounts[2].is_signer && !d.accounts[2].is_writable);
    let data = decode_base64(&d.instruction_data).unwrap();
    assert_eq!(data, vec![7u8, 0, 1, 0, 0, 0, 0, 0, 0]);
}

#[test]
fn sign_message_round_trips_through_verify() {
    let (pubkey, secret) = fresh_keypair_strings();
    let r = sign_message(SignMessageRequest {
        message: "Hello, Solana!".to_string(),
        secret,
    });
    assert!(r.success);
    let d = r.data.unwrap();
    assert_eq!(d.public_key, pubkey);
    assert_eq!(d.message, "Hello, Solana!");
    assert_eq!(decode_base64(&d.signature).unwrap().len(), 64);
    let v = verify_message(VerifyMessageRequest {
        message: d.message,
        signature: d.signature,
        pubkey: d.public_key,
    });
    assert!(v.success);
    let vd = v.data.unwrap();
    assert!(vd.valid);
    assert_eq!(vd.message, "Hello, Solana!");
    assert_eq!(vd.pubkey, pubkey);
}

#[test]
fn sign_message_rejects_bad_secrets() {
    let r = sign_message(SignMessageRequest {
        message: "m".to_string(),
        secret: "not base58".to_string(),
    });
    assert_eq!(error_of(&r), "Invalid base58-encoded secret key");
    let r = sign_message(SignMessageRequest {
        message: "m".to_string(),
        secret: encode_base58(&[9u8; 63]),
    });
    assert_eq!(error_of(&r), "Secret key must be 64 bytes");
}

#[test]
fn sign_message_rejects_inconsistent_halves() {
    let (_, secret) = fresh_keypair_strings();
    let mut bytes = decode_base58(&secret).unwrap();
    bytes[63] ^= 0xff;
    let r = sign_message(SignMessageRequest {
        message: "m".to_string(),
        secret: encode_base58(&bytes),
    });
    assert_eq!(error_of(&r), "Failed to parse secret key into Keypair");
}

#[test]
fn verify_message_rejects_blank_message() {
    let (pubkey, _) = fresh_keypair_strings();
    let r = verify_message(VerifyMessageRequest {
        message: " \t ".to_string(),
        signature: encode_base64(&[0u8; 64]),
        pubkey,
    });
    assert_eq!(error_of(&r), "Message must not be empty");
}

#[test]
fn verify_message_rejects_bad_signature_shape() {
    let (pubkey, _) = fresh_keypair_strings();
    let r = verify_message(VerifyMessageRequest {
        message: "m".to_string(),
        signature: "&&&".to_string(),
        pubkey: pubkey.clone(),
    });
    assert_eq!(error_of(&r), "Invalid base64 signature");
    let r = verify_message(VerifyMessageRequest {
        message: "m".to_string(),
        signature: encode_base64(&[0u8; 63]),
        pubkey,
    });
    assert_eq!(error_of(&r), "Signature must be 64 bytes");
}

#[test]
fn verify_message_rejects_bad_key_shape() {
    let r = verify_message(VerifyMessageRequest {
        message: "m".to_string(),
        signature: encode_base64(&[0u8; 64]),
        pubkey: "zero Oh".to_string(),
    });
    assert_eq!(error_of(&r), "Invalid base58 public key");
    let r = verify_message(VerifyMessageRequest {
        message: "m".to_string(),
        signature: encode_base64(&[0u8; 64]),
        pubkey: encode_base58(&[1u8; 31]),
    });
    assert_eq!(error_of(&r), "Public key must be 32 bytes");
    let mut not_a_point = vec![0u8; 32];
    not_a_point[0] = 2;
    let r = verify_message(VerifyMessageRequest {
        message: "m".to_string(),
        signature: encode_base64(&[0u8; 64]),
        pubkey: encode_base58(&not_a_point),
    });
    assert_eq!(error_of(&r), "Malformed public key");
}

#[test]
fn verify_message_reports_wrong_signature_as_invalid_not_error() {
    let (pubkey, _) = fresh_keypair_strings();
    let r = verify_message(VerifyMessageRequest {
        message: "m".to_string(),
        signature: encode_base64(&[1u8; 64]),
        pubkey,
    });
    assert!(r.success);
    assert!(!r.data.unwrap().valid);
}

#[test]
fn verify_message_rejects_signature_for_other_message() {
    let (pubkey, secret) = fresh_keypair_strings();
    let s = sign_message(SignMessageRequest {
        message: "message one".to_string(),
        secret,
    });
    let signature = s.data.unwrap().signature;
    let r = verify_message(VerifyMessageRequest {
        message: "message two".to_string(),
        signature,
        pubkey,
    });
    assert!(r.success);
    assert!(!r.data.unwrap().valid);
}

#[test]
fn send_sol_rejects_blank_fields_before_decoding() {
    let r = send_sol(SendSolRequest {
        from: "".to_string(),
        to: encode_base58(&[2u8; 32]),
        lamports: 5,
    });
    let empty_err = error_of(&r);
    assert_eq!(empty_err, "Both sender and recipient public keys are required");
    let r = send_sol(SendSolRequest {
        from: "!!!".to_string(),
        to: encode_base58(&[2u8; 32]),
        lamports: 5,
    });
    let decode_err = error_of(&r);
    assert_eq!(decode_err, "Invalid sender public key");
    assert_ne!(empty_err, decode_err);
}

#[test]
fn send_sol_rejects_zero_lamports() {
    let r = send_sol(SendSolRequest {
        from: encode_base58(&[1u8; 32]),
        to: encode_base58(&[2u8; 32]),
        lamports: 0,
    });
    assert_eq!(error_of(&r), "Lamports must be greater than 0");
}

#[test]
fn send_sol_rejects_wrong_key_lengths() {
    let r = send_sol(SendSolRequest {
        from: encode_base58(&[1u8; 33]),
        to: encode_base58(&[2u8; 32]),
        lamports: 5,
    });
    assert_eq!(error_of(&r), "Sender public key must be 32 bytes");
    let r = send_sol(SendSolRequest {
        from: encode_base58(&[1u8; 32]),
        to: encode_base58(&[2u8; 31]),
        lamports: 5,
    });
    assert_eq!(error_of(&r), "Recipient public key must be 32 bytes");
    let r = send_sol(SendSolRequest {
        from: encode_base58(&[1u8; 32]),
        to: "|||".to_string(),
        lamports: 5,
    });
    assert_eq!(error_of(&r), "Invalid recipient public key");
}

#[test]
fn send_sol_one_lamport_builds_two_account_instruction() {
    let from = encode_base58(&[1u8; 32]);
    let to = encode_base58(&[2u8; 32]);
    let r = send_sol(SendSolRequest {
        from: from.clone(),
        to: to.clone(),
        lamports: 1,
    });
    assert!(r.success);
    let d = r.data.unwrap();
    assert_eq!(d.program_id, "11111111111111111111111111111111");
    assert_eq!(d.accounts, vec![from, to]);
    assert!(!d.instruction_data.is_empty());
    let data = decode_base64(&d.instruction_data).unwrap();
    assert_eq!(data, vec![2u8, 0, 0, 0, 1, 0, 0, 0, 0, 0, 0, 0]);
}

#[test]
fn send_token_rejects_zero_amount_and_bad_fields() {
    let good = encode_base58(&[1u8; 32]);
    let r = send_token(SendTokenRequest {
        destination: good.clone(),
        mint: good.clone(),
        owner: good.clone(),
        amount: 0,
    });
    assert_eq!(error_of(&r), "Amount must be greater than 0");
    let r = send_token(SendTokenRequest {
        destination: "***".to_string(),
        mint: good.clone(),
        owner: good.clone(),
        amount: 3,
    });
    assert_eq!(error_of(&r), "Invalid base58 in destination");
    let r = send_token(SendTokenRequest {
        destination: good.clone(),
        mint: encode_base58(&[1u8; 29]),
        owner: good.clone(),
        amount: 3,
    });
    assert_eq!(error_of(&r), "mint must be 32 bytes");
    let r = send_token(SendTokenRequest {
        destination: good.clone(),
        mint: good.clone(),
        owner: "***".to_string(),
        amount: 3,
    });
    assert_eq!(error_of(&r), "Invalid base58 in owner");
}

#[test]
fn send_token_builds_the_transfer_checked_instruction() {
    let dest = encode_base58(&[6u8; 32]);
    let mint = encode_base58(&[7u8; 32]);
    let owner = encode_base58(&[8u8; 32]);
    let r = send_token(SendTokenRequest {
        destination: dest.clone(),
        mint: mint.clone(),
        owner: owner.clone(),
        amount: 513,
    });
    assert!(r.success);
    let d = r.data.unwrap();
    assert_eq!(d.program_id, "TokenkegQfeZyiNwAJbNbGKPFXCWuBvf9Ss623VQ5DA");
    assert_eq!(d.accounts.len(), 4);
    assert_eq!(d.accounts[0].pubkey, owner);
    assert!(d.accounts[0].is_writable && !d.accounts[0].is_signer);
    assert_eq!(d.accounts[1].pubkey, mint);
    assert!(!d.accounts[1].is_writable && !d.accounts[1].is_signer);
    assert_eq!(d.accounts[2].pubkey, dest);
    assert!(d.accounts[2].is_writable && !d.accounts[2].is_signer);
    assert_eq!(d.accounts[3].pubkey, owner);
    assert!(!d.accounts[3].is_writable && d.accounts[3].is_signer);
    let data = decode_base64(&d.instruction_data).unwrap();
    assert_eq!(data, vec![12u8, 1, 2, 0, 0, 0, 0, 0, 0, 6]);
}
