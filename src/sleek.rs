//! The program's instructions, each handing on to the handler of its group.
use vstd::prelude::*;

use crate::bonk_rewards::{self, CashbackMinted, CashbackRedeemed, MintCashback, RedeemCashback};
use crate::cpi::{
    role, system_program_id, system_transfer_data, token_mint_to_data, token_program_id,
    token_transfer_data, CrossProgramCall,
};
use crate::subscription_nft::{
    self, expiry_fits, expiry_of, nft_name, nft_symbol, nft_uri, Creator, ErrorCode,
    ExtendSubscription, MintSubscriptionNFT, SubscriptionData, SubscriptionExtended,
    SubscriptionMint, SubscriptionNFTData, SubscriptionNFTMinted, SubscriptionStatus,
    CREATOR_SHARE,
};
use crate::subscription_payment::{self, PaymentProcessed, ProcessPayment};

verus! {

/// Pays `amount` lamports for `subscription_id` at time `now`.
pub fn process_subscription_payment(ctx: &ProcessPayment, subscription_id: u64, amount: u64, now: i64) -> (r: (
    CrossProgramCall,
    PaymentProcessed,
))
    ensures
        r.0.program_id.bytes@ == system_program_id(),
        r.0.accounts@ == seq![role(ctx.user, true, true), role(ctx.treasury, false, true)],
        r.0.data@ == system_transfer_data(amount),
        r.1 == (PaymentProcessed { user: ctx.user, subscription_id, amount, timestamp: now }),
{
    subscription_payment::process_payment(ctx, subscription_id, amount, now)
}

/// Mints `amount` cashback tokens at time `now`.
pub fn mint_cashback(ctx: &MintCashback, amount: u64, now: i64) -> (r: (CrossProgramCall, CashbackMinted))
    ensures
        r.0.program_id.bytes@ == token_program_id(),
        r.0.accounts@ == seq![
            role(ctx.mint, false, true),
            role(ctx.to, false, true),
            role(ctx.authority, true, false),
        ],
        r.0.data@ == token_mint_to_data(amount),
        r.1 == (CashbackMinted { user: ctx.to_owner, amount, timestamp: now }),
{
    bonk_rewards::mint_cashback(ctx, amount, now)
}

/// Redeems `amount` cashback tokens at time `now`.
pub fn redeem_cashback(ctx: &RedeemCashback, amount: u64, now: i64) -> (r: (CrossProgramCall, CashbackRedeemed))
    ensures
        r.0.program_id.bytes@ == token_program_id(),
        r.0.accounts@ == seq![
            role(ctx.from, false, true),
            role(ctx.treasury, false, true),
            role(ctx.user, true, false),
        ],
        r.0.data@ == token_transfer_data(amount),
        r.1 == (CashbackRedeemed { user: ctx.user, amount, timestamp: now }),
{
    bonk_rewards::redeem_cashback(ctx, amount, now)
}

/// Mints the NFT of `subscription_data` at time `now`; the expiry must fit a
/// timestamp.
pub fn mint_subscription_nft(ctx: &MintSubscriptionNFT, subscription_data: SubscriptionData, now: i64) -> (r:
    SubscriptionMint)
    requires
        expiry_fits(now, subscription_data.duration_days),
    ensures
        r.mint_to.program_id.bytes@ == token_program_id(),
        r.mint_to.accounts@ == seq![
            role(ctx.mint, false, true),
            role(ctx.user_token_account, false, true),
            role(ctx.user, true, false),
        ],
        r.mint_to.data@ == token_mint_to_data(1),
        r.metadata.name@ == nft_name(subscription_data.name@),
        r.metadata.symbol@ == nft_symbol(),
        r.metadata.uri@ == nft_uri(subscription_data.subscription_id),
        r.metadata.seller_fee_basis_points == 0,
        r.metadata.creators@ == seq![Creator { address: ctx.user, verified: true, share: CREATOR_SHARE }],
        r.metadata.is_mutable,
        r.event == (SubscriptionNFTMinted {
            user: ctx.user,
            mint: ctx.mint,
            subscription_id: subscription_data.subscription_id,
            activation_date: now,
            expiry_date: expiry_of(now, subscription_data.duration_days) as i64,
        }),
{
    subscription_nft::mint_subscription_nft(ctx, subscription_data, now)
}

/// Extends the subscription to `new_expiry`, where the signer owns it.
pub fn extend_subscription(ctx: &mut ExtendSubscription, new_expiry: i64) -> (r: Result<
    SubscriptionExtended,
    ErrorCode,
>)
    ensures
        final(ctx).user == old(ctx).user,
        old(ctx).subscription_nft.user.bytes@ == old(ctx).user.bytes@ ==> {
            &&& r == Ok::<SubscriptionExtended, ErrorCode>(
                SubscriptionExtended {
                    user: old(ctx).user,
                    mint: old(ctx).subscription_nft.mint,
                    new_expiry,
                },
            )
            &&& final(ctx).subscription_nft == SubscriptionNFTData {
                expiry_date: new_expiry,
                status: SubscriptionStatus::Active,
                ..old(ctx).subscription_nft
            }
        },
        old(ctx).subscription_nft.user.bytes@ != old(ctx).user.bytes@ ==> {
            &&& r == Err::<SubscriptionExtended, ErrorCode>(ErrorCode::Unauthorized)
            &&& final(ctx).subscription_nft == old(ctx).subscription_nft
        },
{
    subscription_nft::extend_subscription(ctx, new_expiry)
}

} // verus!
