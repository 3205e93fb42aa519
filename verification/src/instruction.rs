//! Unsigned instruction descriptors.
//!
//! An instruction is a program identifier, an ordered list of account
//! references, and an opaque binary payload.  The four builders below map
//! validated domain values to descriptors whose program id, account order
//! and byte-exact payload layout are the wire contract of the target chain's
//! system and token programs.

use crate::keys::PublicKey;
use crate::util::push_all;
use vstd::prelude::*;
use vstd::slice::slice_to_vec;

verus! {

/// The fixed decimal precision used for checked token transfers.  This is a
/// documented simplification: the value is not looked up from mint state.
pub const TOKEN_TRANSFER_DECIMALS: u8 = 6;

/// Mathematical model of an account reference.
#[verifier::ext_equal]
pub struct SpecAccountRef {
    pub address: Seq<u8>,
    pub is_signer: bool,
    pub is_writable: bool,
}

/// Mathematical model of an instruction descriptor.
#[verifier::ext_equal]
pub struct SpecInstruction {
    pub program_id: Seq<u8>,
    pub accounts: Seq<SpecAccountRef>,
    pub data: Seq<u8>,
}

/// One account taking part in an instruction.
pub struct AccountRef {
    pub address: PublicKey,
    pub is_signer: bool,
    pub is_writable: bool,
}

impl View for AccountRef {
    type V = SpecAccountRef;

    open spec fn view(&self) -> SpecAccountRef {
        SpecAccountRef {
            address: self.address@,
            is_signer: self.is_signer,
            is_writable: self.is_writable,
        }
    }
}

/// Program id, ordered account list, opaque payload bytes.
pub struct InstructionDescriptor {
    pub program_id: Vec<u8>,
    pub accounts: Vec<AccountRef>,
    pub data: Vec<u8>,
}

impl View for InstructionDescriptor {
    type V = SpecInstruction;

    open spec fn view(&self) -> SpecInstruction {
        SpecInstruction {
            program_id: self.program_id@,
            accounts: self.accounts@.map_values(|a: AccountRef| a@),
            data: self.data@,
        }
    }
}

/// The token program's 32-byte id (base58 `TokenkegQfeZyiNwAJbNbGKPFXCWuBvf9Ss623VQ5DA`).
pub open spec fn spec_token_program_id() -> Seq<u8> {
    seq![
        6u8, 221u8, 246u8, 225u8, 215u8, 101u8, 161u8, 147u8, 217u8, 203u8, 225u8, 70u8, 206u8,
        235u8, 121u8, 172u8, 28u8, 180u8, 133u8, 237u8, 95u8, 91u8, 55u8, 145u8, 58u8, 140u8,
        245u8, 133u8, 126u8, 255u8, 0u8, 169u8,
    ]
}

/// The rent sysvar's 32-byte id (base58 `SysvarRent111111111111111111111111111111111`).
pub open spec fn spec_rent_sysvar_id() -> Seq<u8> {
    seq![
        6u8, 167u8, 213u8, 23u8, 25u8, 44u8, 92u8, 81u8, 33u8, 140u8, 201u8, 76u8, 61u8, 74u8,
        241u8, 127u8, 88u8, 218u8, 238u8, 8u8, 155u8, 161u8, 253u8, 68u8, 227u8, 219u8, 217u8,
        138u8, 0u8, 0u8, 0u8, 0u8,
    ]
}

/// The system program's 32-byte id (all zeroes, base58 `11111111111111111111111111111111`).
pub open spec fn spec_system_program_id() -> Seq<u8> {
    Seq::new(32, |i: int| 0u8)
}

/// The token program id as bytes.
pub fn token_program_id() -> (r: Vec<u8>)
    ensures
        r@ == spec_token_program_id(),
{
    let a: [u8; 32] = [
        6, 221, 246, 225, 215, 101, 161, 147, 217, 203, 225, 70, 206, 235, 121, 172, 28, 180, 133,
        237, 95, 91, 55, 145, 58, 140, 245, 133, 126, 255, 0, 169,
    ];
    let v = slice_to_vec(a.as_slice());
    assert(v@ =~= spec_token_program_id());
    v
}

/// The rent sysvar id as bytes.
pub fn rent_sysvar_id() -> (r: Vec<u8>)
    ensures
        r@ == spec_rent_sysvar_id(),
{
    let a: [u8; 32] = [
        6, 167, 213, 23, 25, 44, 92, 81, 33, 140, 201, 76, 61, 74, 241, 127, 88, 218, 238, 8, 155,
        161, 253, 68, 227, 219, 217, 138, 0, 0, 0, 0,
    ];
    let v = slice_to_vec(a.as_slice());
    assert(v@ =~= spec_rent_sysvar_id());
    v
}

/// The system program id as bytes.
pub fn system_program_id() -> (r: Vec<u8>)
    ensures
        r@ == spec_system_program_id(),
{
    let mut v: Vec<u8> = Vec::new();
    let mut i: usize = 0;
    while i < 32
        invariant
            0 <= i <= 32,
            v@.len() == i,
            forall|j: int| 0 <= j < i ==> v@[j] == 0u8,
        decreases 32 - i,
    {
        v.push(0);
        i = i + 1;
    }
    assert(v@ =~= spec_system_program_id());
    v
}

/// The little-endian bytes of a 64-bit amount.
pub open spec fn spec_u64_le(v: u64) -> Seq<u8> {
    seq![
        (v & 0xff) as u8, ((v >> 8) & 0xff) as u8, ((v >> 16) & 0xff) as u8, ((v >> 24)
            & 0xff) as u8, ((v >> 32) & 0xff) as u8, ((v >> 40) & 0xff) as u8, ((v >> 48)
            & 0xff) as u8, ((v >> 56) & 0xff) as u8,
    ]
}

/// Append the little-endian bytes of `v` to `dst`.
fn push_u64_le(dst: &mut Vec<u8>, v: u64)
    ensures
        final(dst)@ == old(dst)@ + spec_u64_le(v),
{
    dst.push((v & 0xff) as u8);
    dst.push(((v >> 8) & 0xff) as u8);
    dst.push(((v >> 16) & 0xff) as u8);
    dst.push(((v >> 24) & 0xff) as u8);
    dst.push(((v >> 32) & 0xff) as u8);
    dst.push(((v >> 40) & 0xff) as u8);
    dst.push(((v >> 48) & 0xff) as u8);
    dst.push(((v >> 56) & 0xff) as u8);
    assert(dst@ =~= old(dst)@ + spec_u64_le(v));
}

/// Model of the token program's "initialize mint" instruction: the mint
/// account writable, the rent sysvar read-only; payload tag 0, the decimal
/// count, the 32-byte mint authority, and a zero byte for the absent freeze
/// authority.
pub open spec fn spec_create_mint(mint: Seq<u8>, authority: Seq<u8>, decimals: u8) -> SpecInstruction {
    SpecInstruction {
        program_id: spec_token_program_id(),
        accounts: seq![
            SpecAccountRef { address: mint, is_signer: false, is_writable: true },
            SpecAccountRef {
                address: spec_rent_sysvar_id(),
                is_signer: false,
                is_writable: false,
            },
        ],
        data: seq![0u8, decimals] + authority + seq![0u8],
    }
}

/// Model of the token program's "mint to" instruction: mint and destination
/// writable, the authority as read-only signer; payload tag 7 and the
/// little-endian amount.
pub open spec fn spec_mint_to(
    mint: Seq<u8>,
    destination: Seq<u8>,
    authority: Seq<u8>,
    amount: u64,
) -> SpecInstruction {
    SpecInstruction {
        program_id: spec_token_program_id(),
        accounts: seq![
            SpecAccountRef { address: mint, is_signer: false, is_writable: true },
            SpecAccountRef { address: destination, is_signer: false, is_writable: true },
            SpecAccountRef { address: authority, is_signer: true, is_writable: false },
        ],
        data: seq![7u8] + spec_u64_le(amount),
    }
}

/// Model of the system program's "transfer" instruction: the sender as
/// writable signer, the recipient writable; payload is the little-endian
/// 32-bit variant tag 2 followed by the little-endian lamport amount.
pub open spec fn spec_sol_transfer(from: Seq<u8>, to: Seq<u8>, lamports: u64) -> SpecInstruction {
    SpecInstruction {
        program_id: spec_system_program_id(),
        accounts: seq![
            SpecAccountRef { address: from, is_signer: true, is_writable: true },
            SpecAccountRef { address: to, is_signer: false, is_writable: true },
        ],
        data: seq![2u8, 0u8, 0u8, 0u8] + spec_u64_le(lamports),
    }
}

/// Model of the token program's "transfer checked" instruction: source
/// writable, mint read-only, destination writable, the owner as read-only
/// signer; payload tag 12, the little-endian amount, and the fixed decimal
/// count.
pub open spec fn spec_token_transfer(
    destination: Seq<u8>,
    mint: Seq<u8>,
    owner: Seq<u8>,
    amount: u64,
) -> SpecInstruction {
    SpecInstruction {
        program_id: spec_token_program_id(),
        accounts: seq![
            SpecAccountRef { address: owner, is_signer: false, is_writable: true },
            SpecAccountRef { address: mint, is_signer: false, is_writable: false },
            SpecAccountRef { address: destination, is_signer: false, is_writable: true },
            SpecAccountRef { address: owner, is_signer: true, is_writable: false },
        ],
        data: seq![12u8] + spec_u64_le(amount) + seq![TOKEN_TRANSFER_DECIMALS],
    }
}

/// Build the "initialize mint" instruction for a mint account and its
/// authority.  A decimal count outside [0, 18] is rejected by validation
/// before this builder is reached.
pub fn build_create_mint(mint: &PublicKey, mint_authority: &PublicKey, decimals: u8) -> (r:
    InstructionDescriptor)
    requires
        mint.wf(),
        mint_authority.wf(),
        decimals <= 18,
    ensures
        r@ == spec_create_mint(mint@, mint_authority@, decimals),
{
    let mut data: Vec<u8> = Vec::new();
    data.push(0);
    data.push(decimals);
    push_all(&mut data, mint_authority.bytes.as_slice());
    data.push(0);
    let mut accounts: Vec<AccountRef> = Vec::new();
    accounts.push(AccountRef { address: mint.duplicate(), is_signer: false, is_writable: true });
    accounts.push(
        AccountRef {
            address: PublicKey { bytes: rent_sysvar_id() },
            is_signer: false,
            is_writable: false,
        },
    );
    let r = InstructionDescriptor { program_id: token_program_id(), accounts, data };
    assert(r@ =~~= spec_create_mint(mint@, mint_authority@, decimals));
    r
}

/// Build the "mint to" instruction for a mint, a destination account, an
/// authority and a positive amount.
pub fn build_mint_to(
    mint: &PublicKey,
    destination: &PublicKey,
    authority: &PublicKey,
    amount: u64,
) -> (r: InstructionDescriptor)
    requires
        mint.wf(),
        destination.wf(),
        authority.wf(),
        amount > 0,
    ensures
        r@ == spec_mint_to(mint@, destination@, authority@, amount),
{
    let mut data: Vec<u8> = Vec::new();
    data.push(7);
    push_u64_le(&mut data, amount);
    let mut accounts: Vec<AccountRef> = Vec::new();
    accounts.push(AccountRef { address: mint.duplicate(), is_signer: false, is_writable: true });
    accounts.push(
        AccountRef { address: destination.duplicate(), is_signer: false, is_writable: true },
    );
    accounts.push(
        AccountRef { address: authority.duplicate(), is_signer: true, is_writable: false },
    );
    let r = InstructionDescriptor { program_id: token_program_id(), accounts, data };
    assert(r@ =~~= spec_mint_to(mint@, destination@, authority@, amount));
    r
}

/// Build the system "transfer" instruction moving a positive number of
/// lamports from a sender to a recipient.
pub fn build_sol_transfer(from: &PublicKey, to: &PublicKey, lamports: u64) -> (r:
    InstructionDescriptor)
    requires
        from.wf(),
        to.wf(),
        lamports > 0,
    ensures
        r@ == spec_sol_transfer(from@, to@, lamports),
{
    let mut data: Vec<u8> = Vec::new();
    data.push(2);
    data.push(0);
    data.push(0);
    data.push(0);
    push_u64_le(&mut data, lamports);
    let mut accounts: Vec<AccountRef> = Vec::new();
    accounts.push(AccountRef { address: from.duplicate(), is_signer: true, is_writable: true });
    accounts.push(AccountRef { address: to.duplicate(), is_signer: false, is_writable: true });
    let r = InstructionDescriptor { program_id: system_program_id(), accounts, data };
    assert(r@ =~~= spec_sol_transfer(from@, to@, lamports));
    r
}

/// Build the "transfer checked" instruction moving a positive token amount
/// from the owner's account to a destination account, at the fixed decimal
/// precision.
pub fn build_token_transfer(
    destination: &PublicKey,
    mint: &PublicKey,
    owner: &PublicKey,
    amount: u64,
) -> (r: InstructionDescriptor)
    requires
        destination.wf(),
        mint.wf(),
        owner.wf(),
        amount > 0,
    ensures
        r@ == spec_token_transfer(destination@, mint@, owner@, amount),
{
    let mut data: Vec<u8> = Vec::new();
    data.push(12);
    push_u64_le(&mut data, amount);
    data.push(TOKEN_TRANSFER_DECIMALS);
    let mut accounts: Vec<AccountRef> = Vec::new();
    accounts.push(AccountRef { address: owner.duplicate(), is_signer: false, is_writable: true });
    accounts.push(AccountRef { address: mint.duplicate(), is_signer: false, is_writable: false });
    accounts.push(
        AccountRef { address: destination.duplicate(), is_signer: false, is_writable: true },
    );
    accounts.push(AccountRef { address: owner.duplicate(), is_signer: true, is_writable: false });
    let r = InstructionDescriptor { program_id: token_program_id(), accounts, data };
    assert(r@ =~~= spec_token_transfer(destination@, mint@, owner@, amount));
    r
}

} // verus!
