//! The SOL-transfer operation: build the system program's "transfer"
//! instruction from string inputs.

use crate::codec::base58_decoded;
use crate::codec::base58_of;
use crate::codec::base64_of;
use crate::codec::decode_base58;
use crate::codec::encode_base58;
use crate::codec::encode_base64;
use crate::instruction::build_sol_transfer;
use crate::instruction::spec_sol_transfer;
use crate::keys::PublicKey;
use crate::response::resp_failed;
use crate::response::resp_success;
use crate::response::ApiResponse;
use crate::validate::is_blank;
use crate::validate::spec_blank;
use vstd::prelude::*;

verus! {

/// Inputs of the SOL-transfer operation: sender and recipient addresses
/// (base58) and the lamport amount.
pub struct SendSolRequest {
    pub from: String,
    pub to: String,
    pub lamports: u64,
}

/// The rendered transfer instruction: base58 program id, the two account
/// addresses in order (sender, recipient), and the base64 payload.
pub struct SendSolResponse {
    pub program_id: String,
    pub accounts: Vec<String>,
    pub instruction_data: String,
}

/// The outcome the SOL-transfer operation owes for a request: presence of
/// both addresses is checked before anything is decoded, then the positive
/// amount, then each address (encoding before length), and the rendered
/// instruction carries exactly the sender and recipient accounts.
pub open spec fn send_sol_spec(req: SendSolRequest, r: ApiResponse<SendSolResponse>) -> bool {
    if spec_blank(req.from@) || spec_blank(req.to@) {
        resp_failed(r, "Both sender and recipient public keys are required"@)
    } else if req.lamports == 0 {
        resp_failed(r, "Lamports must be greater than 0"@)
    } else {
        match base58_decoded(req.from@) {
            Option::None => resp_failed(r, "Invalid sender public key"@),
            Option::Some(fb) => if fb.len() != 32 {
                resp_failed(r, "Sender public key must be 32 bytes"@)
            } else {
                match base58_decoded(req.to@) {
                    Option::None => resp_failed(r, "Invalid recipient public key"@),
                    Option::Some(tb) => if tb.len() != 32 {
                        resp_failed(r, "Recipient public key must be 32 bytes"@)
                    } else {
                        resp_success(r) && (r.data matches Some(d) && {
                            let instr = spec_sol_transfer(fb, tb, req.lamports);
                            &&& d.program_id@ == base58_of(instr.program_id)
                            &&& d.accounts@.len() == 2
                            &&& d.accounts@[0]@ == base58_of(fb)
                            &&& d.accounts@[1]@ == base58_of(tb)
                            &&& d.instruction_data@ == base64_of(instr.data)
                        })
                    },
                }
            },
        }
    }
}

/// Build and render the system "transfer" instruction.
pub fn send_sol(req: SendSolRequest) -> (r: ApiResponse<SendSolResponse>)
    ensures
        send_sol_spec(req, r),
{
    if is_blank(req.from.as_str()) || is_blank(req.to.as_str()) {
        return ApiResponse::error("Both sender and recipient public keys are required");
    }
    if req.lamports == 0 {
        return ApiResponse::error("Lamports must be greater than 0");
    }
    let from_bytes = match decode_base58(req.from.as_str()) {
        Err(_) => {
            return ApiResponse::error("Invalid sender public key");
        },
        Ok(v) => v,
    };
    if from_bytes.len() != 32 {
        return ApiResponse::error("Sender public key must be 32 bytes");
    }
    let to_bytes = match decode_base58(req.to.as_str()) {
        Err(_) => {
            return ApiResponse::error("Invalid recipient public key");
        },
        Ok(v) => v,
    };
    if to_bytes.len() != 32 {
        return ApiResponse::error("Recipient public key must be 32 bytes");
    }
    let from = PublicKey::from_bytes(from_bytes);
    let to = PublicKey::from_bytes(to_bytes);
    let instr = build_sol_transfer(&from, &to, req.lamports);
    let mut accounts: Vec<String> = Vec::new();
    accounts.push(from.to_base58());
    accounts.push(to.to_base58());
    let d = SendSolResponse {
        program_id: encode_base58(instr.program_id.as_slice()),
        accounts,
        instruction_data: encode_base64(instr.data.as_slice()),
    };
    ApiResponse::success(d)
}

} // verus!
