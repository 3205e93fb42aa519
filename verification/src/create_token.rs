//! The create-mint operation: build the token program's "initialize mint"
//! instruction from string inputs.

use crate::codec::base58_of;
use crate::codec::base64_of;
use crate::codec::encode_base58;
use crate::codec::encode_base64;
use crate::instruction::build_create_mint;
use crate::instruction::spec_create_mint;
use crate::instruction::AccountRef;
use crate::instruction::SpecAccountRef;
use crate::instruction::SpecInstruction;
use crate::keys::parse_public_key;
use crate::keys::spec_parse_pubkey;
use crate::response::resp_failed;
use crate::response::resp_success;
use crate::response::ApiResponse;
use crate::validate::is_blank;
use crate::validate::spec_blank;
use vstd::prelude::*;

verus! {

/// Inputs of the create-mint operation: the mint address, the mint
/// authority (both base58), and the decimal count.
pub struct CreateTokenRequest {
    pub mint_authority: String,
    pub mint: String,
    pub decimals: u8,
}

/// One account of a rendered instruction.
pub struct AccountInfo {
    pub pubkey: String,
    pub is_signer: bool,
    pub is_writable: bool,
}

/// A rendered instruction: base58 program id, account list, base64 payload.
pub struct TokenInstructionResponse {
    pub program_id: String,
    pub accounts: Vec<AccountInfo>,
    pub instruction_data: String,
}

/// The rendered accounts list the modelled accounts one for one, addresses
/// in base58.
pub open spec fn accounts_match(infos: Seq<AccountInfo>, accs: Seq<SpecAccountRef>) -> bool {
    &&& infos.len() == accs.len()
    &&& forall|i: int|
        0 <= i < accs.len() ==> {
            &&& (#[trigger] infos[i]).pubkey@ == base58_of(accs[i].address)
            &&& infos[i].is_signer == accs[i].is_signer
            &&& infos[i].is_writable == accs[i].is_writable
        }
}

/// The rendered response presents exactly the modelled instruction.
pub open spec fn token_response_matches(d: TokenInstructionResponse, instr: SpecInstruction) -> bool {
    &&& d.program_id@ == base58_of(instr.program_id)
    &&& accounts_match(d.accounts@, instr.accounts)
    &&& d.instruction_data@ == base64_of(instr.data)
}

/// Render an instruction's accounts.
fn accounts_to_info(accs: &Vec<AccountRef>) -> (r: Vec<AccountInfo>)
    ensures
        accounts_match(r@, accs@.map_values(|a: AccountRef| a@)),
{
    let mut r: Vec<AccountInfo> = Vec::new();
    let mut i: usize = 0;
    while i < accs.len()
        invariant
            0 <= i <= accs@.len(),
            r@.len() == i,
            forall|j: int|
                0 <= j < i ==> {
                    &&& (#[trigger] r@[j]).pubkey@ == base58_of(accs@[j]@.address)
                    &&& r@[j].is_signer == accs@[j]@.is_signer
                    &&& r@[j].is_writable == accs@[j]@.is_writable
                },
        decreases accs@.len() - i,
    {
        let a = &accs[i];
        r.push(
            AccountInfo {
                pubkey: a.address.to_base58(),
                is_signer: a.is_signer,
                is_writable: a.is_writable,
            },
        );
        i = i + 1;
    }
    r
}

/// The outcome the create-mint operation owes for a request: checks in
/// order (presence, decimal range, mint, authority), then the rendered
/// "initialize mint" instruction.
pub open spec fn create_token_spec(
    req: CreateTokenRequest,
    r: ApiResponse<TokenInstructionResponse>,
) -> bool {
    if spec_blank(req.mint@) || spec_blank(req.mint_authority@) {
        resp_failed(r, "Mint and Mint Authority fields cannot be empty"@)
    } else if req.decimals > 18 {
        resp_failed(r, "Decimals must be between 0 and 18"@)
    } else {
        match spec_parse_pubkey(req.mint@) {
            Option::None => resp_failed(r, "Invalid base58 public key"@),
            Option::Some(mb) => match spec_parse_pubkey(req.mint_authority@) {
                Option::None => resp_failed(r, "Invalid base58 public key"@),
                Option::Some(ab) => resp_success(r) && (r.data matches Some(d)
                    && token_response_matches(d, spec_create_mint(mb, ab, req.decimals))),
            },
        }
    }
}

/// Build and render the "initialize mint" instruction.
pub fn create_token(req: CreateTokenRequest) -> (r: ApiResponse<TokenInstructionResponse>)
    ensures
        create_token_spec(req, r),
{
    if is_blank(req.mint.as_str()) || is_blank(req.mint_authority.as_str()) {
        return ApiResponse::error("Mint and Mint Authority fields cannot be empty");
    }
    if req.decimals > 18 {
        return ApiResponse::error("Decimals must be between 0 and 18");
    }
    let mint = match parse_public_key(req.mint.as_str()) {
        Err(_) => {
            return ApiResponse::error("Invalid base58 public key");
        },
        Ok(pk) => pk,
    };
    let authority = match parse_public_key(req.mint_authority.as_str()) {
        Err(_) => {
            return ApiResponse::error("Invalid base58 public key");
        },
        Ok(pk) => pk,
    };
    let instr = build_create_mint(&mint, &authority, req.decimals);
    let d = TokenInstructionResponse {
        program_id: encode_base58(instr.program_id.as_slice()),
        accounts: accounts_to_info(&instr.accounts),
        instruction_data: encode_base64(instr.data.as_slice()),
    };
    ApiResponse::success(d)
}

} // verus!
