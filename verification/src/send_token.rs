//! The token-transfer operation: build the token program's "transfer
//! checked" instruction from string inputs, at the fixed decimal precision.

use crate::codec::base58_decoded;
use crate::codec::base58_of;
use crate::codec::base64_of;
use crate::codec::encode_base58;
use crate::codec::encode_base64;
use crate::instruction::build_token_transfer;
use crate::instruction::spec_token_transfer;
use crate::instruction::AccountRef;
use crate::instruction::SpecAccountRef;
use crate::instruction::SpecInstruction;
use crate::keys::parse_public_key;
use crate::keys::spec_parse_pubkey;
use crate::keys::KeyError;
use crate::response::resp_failed;
use crate::response::resp_success;
use crate::response::ApiResponse;
use vstd::prelude::*;

verus! {

/// Inputs of the token-transfer operation: destination, mint and owner
/// addresses (base58) and the token amount.
pub struct SendTokenRequest {
    pub destination: String,
    pub mint: String,
    pub owner: String,
    pub amount: u64,
}

/// One account of the rendered instruction.
pub struct TokenAccountMeta {
    pub pubkey: String,
    pub is_signer: bool,
    pub is_writable: bool,
}

/// The rendered transfer instruction: base58 program id, account list,
/// base64 payload.
pub struct SendTokenResponse {
    pub program_id: String,
    pub accounts: Vec<TokenAccountMeta>,
    pub instruction_data: String,
}

/// The rendered accounts list the modelled accounts one for one, addresses
/// in base58.
pub open spec fn metas_match(metas: Seq<TokenAccountMeta>, accs: Seq<SpecAccountRef>) -> bool {
    &&& metas.len() == accs.len()
    &&& forall|i: int|
        0 <= i < accs.len() ==> {
            &&& (#[trigger] metas[i]).pubkey@ == base58_of(accs[i].address)
            &&& metas[i].is_signer == accs[i].is_signer
            &&& metas[i].is_writable == accs[i].is_writable
        }
}

/// The rendered response presents exactly the modelled instruction.
pub open spec fn send_token_response_matches(d: SendTokenResponse, instr: SpecInstruction) -> bool {
    &&& d.program_id@ == base58_of(instr.program_id)
    &&& metas_match(d.accounts@, instr.accounts)
    &&& d.instruction_data@ == base64_of(instr.data)
}

/// Render an instruction's accounts.
fn accounts_to_meta(accs: &Vec<AccountRef>) -> (r: Vec<TokenAccountMeta>)
    ensures
        metas_match(r@, accs@.map_values(|a: AccountRef| a@)),
{
    let mut r: Vec<TokenAccountMeta> = Vec::new();
    let mut i: usize = 0;
    while i < accs.len()
        invariant
            0 <= i <= accs@.len(),
            r@.len() == i,
            forall|j: int|
                0 <= j < i ==> {
                    &&& (#[trigger] r@[j]).pubkey@ == base58_of(accs@[j]@.address)
                    &&& r@[j].is_signer == accs@[j]@.is_signer
                    &&& r@[j].is_writable == accs@[j]@.is_writable
                },
        decreases accs@.len() - i,
    {
        let a = &accs[i];
        r.push(
            TokenAccountMeta {
                pubkey: a.address.to_base58(),
                is_signer: a.is_signer,
                is_writable: a.is_writable,
            },
        );
        i = i + 1;
    }
    r
}

/// The outcome the token-transfer operation owes for a request: a positive
/// amount, then each address in order (destination, mint, owner; encoding
/// before length), then the rendered "transfer checked" instruction.
pub open spec fn send_token_spec(req: SendTokenRequest, r: ApiResponse<SendTokenResponse>) -> bool {
    if req.amount == 0 {
        resp_failed(r, "Amount must be greater than 0"@)
    } else {
        match base58_decoded(req.destination@) {
            Option::None => resp_failed(r, "Invalid base58 in destination"@),
            Option::Some(db) => if db.len() != 32 {
                resp_failed(r, "destination must be 32 bytes"@)
            } else {
                match base58_decoded(req.mint@) {
                    Option::None => resp_failed(r, "Invalid base58 in mint"@),
                    Option::Some(mb) => if mb.len() != 32 {
                        resp_failed(r, "mint must be 32 bytes"@)
                    } else {
                        match base58_decoded(req.owner@) {
                            Option::None => resp_failed(r, "Invalid base58 in owner"@),
                            Option::Some(ob) => if ob.len() != 32 {
                                resp_failed(r, "owner must be 32 bytes"@)
                            } else {
                                resp_success(r) && (r.data matches Some(d)
                                    && send_token_response_matches(
                                    d,
                                    spec_token_transfer(db, mb, ob, req.amount),
                                ))
                            },
                        }
                    },
                }
            },
        }
    }
}

/// Build and render the "transfer checked" instruction.
pub fn send_token(req: SendTokenRequest) -> (r: ApiResponse<SendTokenResponse>)
    ensures
        send_token_spec(req, r),
{
    if req.amount == 0 {
        return ApiResponse::error("Amount must be greater than 0");
    }
    let destination = match parse_public_key(req.destination.as_str()) {
        Err(KeyError::InvalidEncoding) => {
            return ApiResponse::error("Invalid base58 in destination");
        },
        Err(_) => {
            return ApiResponse::error("destination must be 32 bytes");
        },
        Ok(pk) => pk,
    };
    let mint = match parse_public_key(req.mint.as_str()) {
        Err(KeyError::InvalidEncoding) => {
            return ApiResponse::error("Invalid base58 in mint");
        },
        Err(_) => {
            return ApiResponse::error("mint must be 32 bytes");
        },
        Ok(pk) => pk,
    };
    let owner = match parse_public_key(req.owner.as_str()) {
        Err(KeyError::InvalidEncoding) => {
            return ApiResponse::error("Invalid base58 in owner");
        },
        Err(_) => {
            return ApiResponse::error("owner must be 32 bytes");
        },
        Ok(pk) => pk,
    };
    let instr = build_token_transfer(&destination, &mint, &owner, req.amount);
    let d = SendTokenResponse {
        program_id: encode_base58(instr.program_id.as_slice()),
        accounts: accounts_to_meta(&instr.accounts),
        instruction_data: encode_base64(instr.data.as_slice()),
    };
    ApiResponse::success(d)
}

} // verus!
