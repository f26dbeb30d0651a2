//! Instructions that the program hands to other programs, as plain values:
//! the called program, the accounts it is given with their roles, and the
//! instruction bytes.
use vstd::prelude::*;

use anchor_lang::solana_program;
use anchor_lang::solana_program::pubkey::Pubkey;
use anchor_spl::token::spl_token;

use crate::address::{u64_le, Address};

verus! {

/// One account handed to a called program, with its role.
#[derive(Clone, Copy, Debug, PartialEq, Eq)]
pub struct AccountRole {
    pub address: Address,
    pub is_signer: bool,
    pub is_writable: bool,
}

/// An instruction for another program.
#[derive(Clone, Debug, PartialEq, Eq)]
pub struct CrossProgramCall {
    pub program_id: Address,
    pub accounts: Vec<AccountRole>,
    pub data: Vec<u8>,
}

/// The role of `address` in a call.
pub open spec fn role(address: Address, is_signer: bool, is_writable: bool) -> AccountRole {
    AccountRole { address, is_signer, is_writable }
}

/// The system program's address: 32 zero bytes.
pub open spec fn system_program_id() -> Seq<u8> {
    Seq::new(32, |i: int| 0u8)
}

/// The token program's address (`TokenkegQfeZyiNwAJbNbGKPFXCWuBvf9Ss623VQ5DA`).
pub open spec fn token_program_id() -> Seq<u8> {
    seq![
        6u8, 221, 246, 225, 215, 101, 161, 147, 217, 203, 225, 70, 206, 235, 121, 172,
        28, 180, 133, 237, 95, 91, 55, 145, 58, 140, 245, 133, 126, 255, 0, 169,
    ]
}

/// Instruction bytes of the system program's transfer of `lamports`: the
/// variant index 2 as a little-endian `u32`, then the amount.
pub open spec fn system_transfer_data(lamports: u64) -> Seq<u8> {
    seq![2u8, 0, 0, 0] + u64_le(lamports)
}

/// Instruction bytes of the token program's `MintTo`: tag 7, then the amount.
pub open spec fn token_mint_to_data(amount: u64) -> Seq<u8> {
    seq![7u8] + u64_le(amount)
}

/// Instruction bytes of the token program's `Transfer`: tag 3, then the amount.
pub open spec fn token_transfer_data(amount: u64) -> Seq<u8> {
    seq![3u8] + u64_le(amount)
}

/// Relies on `solana_program::system_instruction::transfer`: a system
/// program instruction moving `lamports` from `from` (signer, writable) to
/// `to` (writable), encoded with bincode.
#[verifier::external_body]
pub(crate) fn system_transfer(from: &Address, to: &Address, lamports: u64) -> (r: CrossProgramCall)
    ensures
        r.program_id.bytes@ == system_program_id(),
        r.accounts@ == seq![role(*from, true, true), role(*to, false, true)],
        r.data@ == system_transfer_data(lamports),
{
    let ix = solana_program::system_instruction::transfer(
        &Pubkey::new_from_array(from.bytes),
        &Pubkey::new_from_array(to.bytes),
        lamports,
    );
    let accounts = ix.accounts.iter().map(|m| AccountRole {
        address: Address { bytes: m.pubkey.to_bytes() },
        is_signer: m.is_signer,
        is_writable: m.is_writable,
    }).collect();
    CrossProgramCall { program_id: Address { bytes: ix.program_id.to_bytes() }, accounts, data: ix.data }
}

/// Relies on `spl_token::instruction::mint_to` called with the token
/// program's own id and no multisig signers: it succeeds and mints `amount`
/// of `mint` (writable) to `to` (writable) under `authority` (signer).
#[verifier::external_body]
pub(crate) fn token_mint_to(mint: &Address, to: &Address, authority: &Address, amount: u64) -> (r: Option<CrossProgramCall>)
    ensures
        r is Some,
        r->0.program_id.bytes@ == token_program_id(),
        r->0.accounts@ == seq![role(*mint, false, true), role(*to, false, true), role(*authority, true, false)],
        r->0.data@ == token_mint_to_data(amount),
{
    let pk = |a: &Address| Pubkey::new_from_array(a.bytes);
    match spl_token::instruction::mint_to(&spl_token::ID, &pk(mint), &pk(to), &pk(authority), &[], amount) {
        Ok(ix) => Some(CrossProgramCall {
            program_id: Address { bytes: ix.program_id.to_bytes() },
            accounts: ix.accounts.iter().map(|m| AccountRole { address: Address { bytes: m.pubkey.to_bytes() }, is_signer: m.is_signer, is_writable: m.is_writable }).collect(),
            data: ix.data,
        }),
        Err(_) => None,
    }
}

/// Relies on `spl_token::instruction::transfer` called with the token
/// program's own id and no multisig signers: it succeeds and moves `amount`
/// from `from` (writable) to `to` (writable) under `authority` (signer).
#[verifier::external_body]
pub(crate) fn token_transfer(from: &Address, to: &Address, authority: &Address, amount: u64) -> (r: Option<CrossProgramCall>)
    ensures
        r is Some,
        r->0.program_id.bytes@ == token_program_id(),
        r->0.accounts@ == seq![role(*from, false, true), role(*to, false, true), role(*authority, true, false)],
        r->0.data@ == token_transfer_data(amount),
{
    let pk = |a: &Address| Pubkey::new_from_array(a.bytes);
    match spl_token::instruction::transfer(&spl_token::ID, &pk(from), &pk(to), &pk(authority), &[], amount) {
        Ok(ix) => Some(CrossProgramCall {
            program_id: Address { bytes: ix.program_id.to_bytes() },
            accounts: ix.accounts.iter().map(|m| AccountRole { address: Address { bytes: m.pubkey.to_bytes() }, is_signer: m.is_signer, is_writable: m.is_writable }).collect(),
            data: ix.data,
        }),
        Err(_) => None,
    }
}

} // verus!
