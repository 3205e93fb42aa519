//! The mint-to operation: build the token program's "mint to" instruction
//! from string inputs.

use crate::codec::base58_of;
use crate::codec::base64_of;
use crate::codec::encode_base58;
use crate::codec::encode_base64;
use crate::instruction::build_mint_to;
use crate::instruction::spec_mint_to;
use crate::instruction::AccountRef;
use crate::instruction::SpecAccountRef;
use crate::instruction::SpecInstruction;
use crate::keys::parse_public_key;
use crate::keys::spec_parse_pubkey;
use crate::response::resp_failed;
use crate::response::resp_success;
use crate::response::ApiResponse;
use crate::validate::is_blank;
use crate::validate::spec_blank;
use vstd::prelude::*;

verus! {

/// Inputs of the mint-to operation: mint, destination and authority
/// addresses (base58) and the token amount.
pub struct MintTokenRequest {
    pub mint: String,
    pub destination: String,
    pub authority: String,
    pub amount: u64,
}

/// One account of a rendered instruction.
pub struct AccountInfo {
    pub pubkey: String,
    pub is_signer: bool,
    pub is_writable: bool,
}

/// A rendered instruction: base58 program id, account list, base64 payload.
pub struct TokenInstructionResponse {
    pub program_id: String,
    pub accounts: Vec<AccountInfo>,
    pub instruction_data: String,
}

/// The rendered accounts list the modelled accounts one for one, addresses
/// in base58.
pub open spec fn accounts_match(infos: Seq<AccountInfo>, accs: Seq<SpecAccountRef>) -> bool {
    &&& infos.len() == accs.len()
    &&& forall|i: int|
        0 <= i < accs.len() ==> {
            &&& (#[trigger] infos[i]).pubkey@ == base58_of(accs[i].address)
            &&& infos[i].is_signer == accs[i].is_signer
            &&& infos[i].is_writable == accs[i].is_writable
        }
}

/// The rendered response presents exactly the modelled instruction.
pub open spec fn token_response_matches(d: TokenInstructionResponse, instr: SpecInstruction) -> bool {
    &&& d.program_id@ == base58_of(instr.program_id)
    &&& accounts_match(d.accounts@, instr.accounts)
    &&& d.instruction_data@ == base64_of(instr.data)
}

/// Render an instruction's accounts.
fn accounts_to_info(accs: &Vec<AccountRef>) -> (r: Vec<AccountInfo>)
    ensures
        accounts_match(r@, accs@.map_values(|a: AccountRef| a@)),
{
    let mut r: Vec<AccountInfo> = Vec::new();
    let mut i: usize = 0;
    while i < accs.len()
        invariant
            0 <= i <= accs@.len(),
            r@.len() == i,
            forall|j: int|
                0 <= j < i ==> {
                    &&& (#[trigger] r@[j]).pubkey@ == base58_of(accs@[j]@.address)
                    &&& r@[j].is_signer == accs@[j]@.is_signer
                    &&& r@[j].is_writable == accs@[j]@.is_writable
                },
        decreases accs@.len() - i,
    {
        let a = &accs[i];
        r.push(
            AccountInfo {
                pubkey: a.address.to_base58(),
                is_signer: a.is_signer,
                is_writable: a.is_writable,
            },
        );
        i = i + 1;
    }
    r
}

/// The outcome the mint-to operation owes for a request: checks in order
/// (presence of all three fields, positive amount, mint, destination,
/// authority), then the rendered "mint to" instruction.
pub open spec fn mint_token_spec(req: MintTokenRequest, r: ApiResponse<TokenInstructionResponse>) -> bool {
    if spec_blank(req.mint@) || spec_blank(req.destination@) || spec_blank(req.authority@) {
        resp_failed(r, "All fields (mint, destination, authority) are required"@)
    } else if req.amount == 0 {
        resp_failed(r, "Amount must be greater than 0"@)
    } else {
        match spec_parse_pubkey(req.mint@) {
            Option::None => resp_failed(r, "Invalid base58 public key in field: mint"@),
            Option::Some(mb) => match spec_parse_pubkey(req.destination@) {
                Option::None => resp_failed(r, "Invalid base58 public key in field: destination"@),
                Option::Some(db) => match spec_parse_pubkey(req.authority@) {
                    Option::None => resp_failed(
                        r,
                        "Invalid base58 public key in field: authority"@,
                    ),
                    Option::Some(ab) => resp_success(r) && (r.data matches Some(d)
                        && token_response_matches(d, spec_mint_to(mb, db, ab, req.amount))),
                },
            },
        }
    }
}

/// Build and render the "mint to" instruction.
pub fn mint_token(req: MintTokenRequest) -> (r: ApiResponse<TokenInstructionResponse>)
    ensures
        mint_token_spec(req, r),
{
    if is_blank(req.mint.as_str()) || is_blank(req.destination.as_str()) || is_blank(
        req.authority.as_str(),
    ) {
        return ApiResponse::error("All fields (mint, destination, authority) are required");
    }
    if req.amount == 0 {
        return ApiResponse::error("Amount must be greater than 0");
    }
    let mint = match parse_public_key(req.mint.as_str()) {
        Err(_) => {
            return ApiResponse::error("Invalid base58 public key in field: mint");
        },
        Ok(pk) => pk,
    };
    let dest = match parse_public_key(req.destination.as_str()) {
        Err(_) => {
            return ApiResponse::error("Invalid base58 public key in field: destination");
        },
        Ok(pk) => pk,
    };
    let authority = match parse_public_key(req.authority.as_str()) {
        Err(_) => {
            return ApiResponse::error("Invalid base58 public key in field: authority");
        },
        Ok(pk) => pk,
    };
    let instr = build_mint_to(&mint, &dest, &authority, req.amount);
    let d = TokenInstructionResponse {
        program_id: encode_base58(instr.program_id.as_slice()),
        accounts: accounts_to_info(&instr.accounts),
        instruction_data: encode_base64(instr.data.as_slice()),
    };
    ApiResponse::success(d)
}

} // verus!
