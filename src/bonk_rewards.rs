//! Token cashback: minting it to a user, redeeming it to the treasury, and
//! the record of a cashback.
use vstd::prelude::*;

use crate::address::{derived_view, find_program_address, program_address_of, i64_le, push_i64_le, Address};
use crate::cpi::{
    role, token_mint_to, token_mint_to_data, token_program_id, token_transfer,
    token_transfer_data, CrossProgramCall,
};

verus! {

/// Bytes of a cashback record account: discriminator, user, amount,
/// timestamp and bump, with eight bytes to spare.
pub const CASHBACK_RECORD_SPACE: usize = 8 + 32 + 8 + 8 + 8 + 1;

/// The accounts of a cashback mint: the token mint, the receiving token
/// account and its owner, and the mint authority.
#[derive(Clone, Copy, Debug, PartialEq, Eq)]
pub struct MintCashback {
    pub mint: Address,
    pub to: Address,
    pub to_owner: Address,
    pub authority: Address,
}

/// The accounts of a redemption: the token mint, the user's token account,
/// the treasury's token account, and the user, who signs.
#[derive(Clone, Copy, Debug, PartialEq, Eq)]
pub struct RedeemCashback {
    pub mint: Address,
    pub from: Address,
    pub treasury: Address,
    pub user: Address,
}

/// The accounts of a cashback record: the user, who pays for the account,
/// and the bump of the record's derived address.
#[derive(Clone, Copy, Debug, PartialEq, Eq)]
pub struct CashbackRecord {
    pub user: Address,
    pub bump: u8,
}

/// What a cashback record account holds.
#[derive(Clone, Copy, Debug, PartialEq, Eq)]
pub struct CashbackRecordData {
    pub user: Address,
    pub amount: u64,
    pub timestamp: i64,
    pub bump: u8,
}

/// Event of minted cashback.
#[derive(Clone, Copy, Debug, PartialEq, Eq)]
pub struct CashbackMinted {
    pub user: Address,
    pub amount: u64,
    pub timestamp: i64,
}

/// Event of redeemed cashback.
#[derive(Clone, Copy, Debug, PartialEq, Eq)]
pub struct CashbackRedeemed {
    pub user: Address,
    pub amount: u64,
    pub timestamp: i64,
}

/// Mints `amount` cashback tokens at time `now` to the receiving account,
/// under the mint authority: the mint instruction, and the event, which
/// names the receiving account's owner.
pub fn mint_cashback(ctx: &MintCashback, amount: u64, now: i64) -> (r: (CrossProgramCall, CashbackMinted))
    ensures
        r.0.program_id.bytes@ == token_program_id(),
        r.0.accounts@ == seq![
            role(ctx.mint, false, true),
            role(ctx.to, false, true),
            role(ctx.authority, true, false),
        ],
        r.0.data@ == token_mint_to_data(amount),
        r.1 == (CashbackMinted { user: ctx.to_owner, amount, timestamp: now }),
{
    let call = token_mint_to(&ctx.mint, &ctx.to, &ctx.authority, amount).unwrap();
    (call, CashbackMinted { user: ctx.to_owner, amount, timestamp: now })
}

/// Redeems `amount` cashback tokens at time `now`: the transfer from the
/// user's token account to the treasury under the user's signature, and the
/// event.
pub fn redeem_cashback(ctx: &RedeemCashback, amount: u64, now: i64) -> (r: (CrossProgramCall, CashbackRedeemed))
    ensures
        r.0.program_id.bytes@ == token_program_id(),
        r.0.accounts@ == seq![
            role(ctx.from, false, true),
            role(ctx.treasury, false, true),
            role(ctx.user, true, false),
        ],
        r.0.data@ == token_transfer_data(amount),
        r.1 == (CashbackRedeemed { user: ctx.user, amount, timestamp: now }),
{
    let call = token_transfer(&ctx.from, &ctx.treasury, &ctx.user, amount).unwrap();
    (call, CashbackRedeemed { user: ctx.user, amount, timestamp: now })
}

/// The record of a cashback of `amount` made at `now`.
pub fn record_cashback(ctx: &CashbackRecord, amount: u64, now: i64) -> (r: CashbackRecordData)
    ensures
        r == (CashbackRecordData { user: ctx.user, amount, timestamp: now, bump: ctx.bump }),
{
    CashbackRecordData { user: ctx.user, amount, timestamp: now, bump: ctx.bump }
}

/// The tag that starts the seeds of a cashback record: `b"cashback"`.
pub open spec fn cashback_tag() -> Seq<u8> {
    seq![99u8, 97, 115, 104, 98, 97, 99, 107]
}

/// The seeds of the cashback record of `user` made at `timestamp`.
pub open spec fn cashback_seeds(user: Address, timestamp: i64) -> Seq<Seq<u8>> {
    seq![cashback_tag(), user.bytes@, i64_le(timestamp)]
}

/// The seeds from which the address of a cashback record is derived.
pub fn cashback_record_seeds(user: &Address, timestamp: i64) -> (r: Vec<Vec<u8>>)
    ensures
        r.deep_view() == cashback_seeds(*user, timestamp),
{
    let tag: Vec<u8> = vec![99u8, 97, 115, 104, 98, 97, 99, 107];
    let mut ts: Vec<u8> = Vec::new();
    push_i64_le(&mut ts, timestamp);
    assert(ts@ =~= i64_le(timestamp));
    let r: Vec<Vec<u8>> = vec![tag, user.to_vec(), ts];
    assert(r@[0].deep_view() =~= cashback_tag());
    assert(r@[1].deep_view() =~= user.bytes@);
    assert(r@[2].deep_view() =~= i64_le(timestamp));
    assert(r.deep_view() =~= cashback_seeds(*user, timestamp));
    r
}


/// The address of the cashback record of `user` for `timestamp` under the program
/// `program_id`, and its bump.
pub fn cashback_record_address(program_id: &Address, user: &Address, timestamp: i64) -> (r: Option<(Address, u8)>)
    ensures
        derived_view(r) == program_address_of(cashback_seeds(*user, timestamp), program_id.bytes@),
{
    let seeds = cashback_record_seeds(user, timestamp);
    find_program_address(&seeds, program_id)
}

} // verus!
