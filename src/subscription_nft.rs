//! Subscription NFTs: minting one with its metadata, extending it, and the
//! ledger record of a subscription.
use vstd::prelude::*;

use crate::address::{derived_view, find_program_address, program_address_of, push_u64_le, u64_le, Address};
use crate::cpi::{role, token_mint_to, token_mint_to_data, token_program_id, CrossProgramCall};
use crate::decimal::{decimal, push_decimal};

verus! {

/// Seconds in a day.
pub const SECONDS_PER_DAY: u64 = 24 * 60 * 60;

/// Bytes of a subscription record account: discriminator, user, mint,
/// subscription id, amount, activation date, expiry date and bump.
pub const SUBSCRIPTION_RECORD_SPACE: usize = 8 + 32 + 32 + 8 + 8 + 8 + 8 + 1;

/// Share of the single creator of a subscription NFT, in percent.
pub const CREATOR_SHARE: u8 = 100;

/// The accounts of an NFT mint: the mint, its metadata account, the user's
/// token account, and the user, who signs as mint authority.
#[derive(Clone, Copy, Debug, PartialEq, Eq)]
pub struct MintSubscriptionNFT {
    pub mint: Address,
    pub metadata: Address,
    pub user_token_account: Address,
    pub user: Address,
}

/// The accounts of an extension: the subscription NFT's state and the signer.
#[derive(Clone, Copy, Debug, PartialEq, Eq)]
pub struct ExtendSubscription {
    pub subscription_nft: SubscriptionNFTData,
    pub user: Address,
}

/// The accounts of a subscription record: the user, who pays for the
/// account, and the bump of the record's derived address.
#[derive(Clone, Copy, Debug, PartialEq, Eq)]
pub struct SubscriptionRecord {
    pub user: Address,
    pub bump: u8,
}

/// State of a subscription NFT.
#[derive(Clone, Copy, Debug, PartialEq, Eq)]
pub struct SubscriptionNFTData {
    pub user: Address,
    pub mint: Address,
    pub subscription_id: u64,
    pub amount: u64,
    pub activation_date: i64,
    pub expiry_date: i64,
    pub status: SubscriptionStatus,
    pub bump: u8,
}

/// Ledger record of a subscription.
#[derive(Clone, Copy, Debug, PartialEq, Eq)]
pub struct SubscriptionRecordData {
    pub user: Address,
    pub mint: Address,
    pub subscription_id: u64,
    pub amount: u64,
    pub activation_date: i64,
    pub expiry_date: i64,
    pub bump: u8,
}

/// Status of a subscription.
#[derive(Clone, Copy, Debug, PartialEq, Eq)]
pub enum SubscriptionStatus {
    Active,
    Expired,
    Cancelled,
}

/// What a user subscribes to.
#[derive(Clone, Debug, PartialEq, Eq)]
pub struct SubscriptionData {
    pub subscription_id: u64,
    pub name: String,
    pub amount: u64,
    pub duration_days: u64,
    pub category: String,
}

/// A creator listed in NFT metadata.
#[derive(Clone, Copy, Debug, PartialEq, Eq)]
pub struct Creator {
    pub address: Address,
    pub verified: bool,
    pub share: u8,
}

/// The metadata written for a subscription NFT.
#[derive(Clone, Debug, PartialEq, Eq)]
pub struct NftMetadata {
    pub name: String,
    pub symbol: String,
    pub uri: String,
    pub seller_fee_basis_points: u16,
    pub creators: Vec<Creator>,
    pub is_mutable: bool,
}

/// Everything a subscription NFT mint hands on: the mint of one token, the
/// metadata to create, and the event.
#[derive(Clone, Debug, PartialEq, Eq)]
pub struct SubscriptionMint {
    pub mint_to: CrossProgramCall,
    pub metadata: NftMetadata,
    pub event: SubscriptionNFTMinted,
}

/// Event of a minted subscription NFT.
#[derive(Clone, Copy, Debug, PartialEq, Eq)]
pub struct SubscriptionNFTMinted {
    pub user: Address,
    pub mint: Address,
    pub subscription_id: u64,
    pub activation_date: i64,
    pub expiry_date: i64,
}

/// Event of an extended subscription.
#[derive(Clone, Copy, Debug, PartialEq, Eq)]
pub struct SubscriptionExtended {
    pub user: Address,
    pub mint: Address,
    pub new_expiry: i64,
}

/// Errors of the subscription instructions.
#[derive(Clone, Copy, Debug, PartialEq, Eq)]
pub enum ErrorCode {
    /// The signer is not the subscription's owner.
    Unauthorized,
    /// The subscription has expired.
    SubscriptionExpired,
    /// The subscription's data is invalid.
    InvalidSubscriptionData,
}

impl ErrorCode {
    /// The message of the error.
    pub fn message(&self) -> (r: &'static str)
        ensures
            r@ == (match *self {
                ErrorCode::Unauthorized => "User is not authorized to perform this action"@,
                ErrorCode::SubscriptionExpired => "Subscription has expired"@,
                ErrorCode::InvalidSubscriptionData => "Invalid subscription data"@,
            }),
    {
        match self {
            ErrorCode::Unauthorized => "User is not authorized to perform this action",
            ErrorCode::SubscriptionExpired => "Subscription has expired",
            ErrorCode::InvalidSubscriptionData => "Invalid subscription data",
        }
    }
}

/// The expiry, in seconds, of a subscription activated at `activation` that
/// lasts `duration_days` days.
pub open spec fn expiry_of(activation: i64, duration_days: u64) -> int {
    activation + duration_days * SECONDS_PER_DAY
}

/// Whether that expiry is a valid timestamp.
pub open spec fn expiry_fits(activation: i64, duration_days: u64) -> bool {
    i64::MIN <= expiry_of(activation, duration_days) <= i64::MAX
}

/// The expiry date of a subscription activated at `activation` that lasts
/// `duration_days` days; `None` where it does not fit a timestamp.
pub fn expiry_date(activation: i64, duration_days: u64) -> (r: Option<i64>)
    ensures
        r == (if expiry_fits(activation, duration_days) {
            Some(expiry_of(activation, duration_days) as i64)
        } else {
            None
        }),
{
    assert(SECONDS_PER_DAY == 86400);
    let e: i128 = activation as i128 + duration_days as i128 * 86400;
    if e < i64::MIN as i128 || e > i64::MAX as i128 {
        None
    } else {
        Some(e as i64)
    }
}

/// The name of a subscription NFT: `"Sleek Subscription - "` and the
/// subscription's name.
pub open spec fn nft_name(name: Seq<char>) -> Seq<char> {
    "Sleek Subscription - "@ + name
}

/// The metadata address of a subscription NFT.
pub open spec fn nft_uri(subscription_id: u64) -> Seq<char> {
    "https://sleek.app/metadata/"@ + decimal(subscription_id as nat) + ".json"@
}

/// The symbol of every subscription NFT.
pub open spec fn nft_symbol() -> Seq<char> {
    "SLEEK"@
}

/// The metadata of the NFT of `data`, created by `user`.
pub fn subscription_metadata(data: &SubscriptionData, user: &Address) -> (r: NftMetadata)
    ensures
        r.name@ == nft_name(data.name@),
        r.symbol@ == nft_symbol(),
        r.uri@ == nft_uri(data.subscription_id),
        r.seller_fee_basis_points == 0,
        r.creators@ == seq![Creator { address: *user, verified: true, share: CREATOR_SHARE }],
        r.is_mutable,
{
    let mut name = String::from_str("Sleek Subscription - ");
    name.append(data.name.as_str());
    let mut uri = String::from_str("https://sleek.app/metadata/");
    push_decimal(&mut uri, data.subscription_id);
    uri.append(".json");
    let creators: Vec<Creator> = vec![Creator { address: *user, verified: true, share: CREATOR_SHARE }];
    NftMetadata {
        name,
        symbol: String::from_str("SLEEK"),
        uri,
        seller_fee_basis_points: 0,
        creators,
        is_mutable: true,
    }
}

/// Mints the NFT of `subscription_data` at time `now`: one token of the mint
/// to the user's token account under the user's authority, its metadata, and
/// the event. The expiry must fit a timestamp.
pub fn mint_subscription_nft(ctx: &MintSubscriptionNFT, subscription_data: SubscriptionData, now: i64) -> (r:
    SubscriptionMint)
    requires
        expiry_fits(now, subscription_data.duration_days),
    ensures
        r.mint_to.program_id.bytes@ == token_program_id(),
        r.mint_to.accounts@ == seq![
            role(ctx.mint, false, true),
            role(ctx.user_token_account, false, true),
            role(ctx.user, true, false),
        ],
        r.mint_to.data@ == token_mint_to_data(1),
        r.metadata.name@ == nft_name(subscription_data.name@),
        r.metadata.symbol@ == nft_symbol(),
        r.metadata.uri@ == nft_uri(subscription_data.subscription_id),
        r.metadata.seller_fee_basis_points == 0,
        r.metadata.creators@ == seq![Creator { address: ctx.user, verified: true, share: CREATOR_SHARE }],
        r.metadata.is_mutable,
        r.event == (SubscriptionNFTMinted {
            user: ctx.user,
            mint: ctx.mint,
            subscription_id: subscription_data.subscription_id,
            activation_date: now,
            expiry_date: expiry_of(now, subscription_data.duration_days) as i64,
        }),
{
    let expiry = expiry_date(now, subscription_data.duration_days).unwrap();
    let mint_to = token_mint_to(&ctx.mint, &ctx.user_token_account, &ctx.user, 1).unwrap();
    let metadata = subscription_metadata(&subscription_data, &ctx.user);
    let event = SubscriptionNFTMinted {
        user: ctx.user,
        mint: ctx.mint,
        subscription_id: subscription_data.subscription_id,
        activation_date: now,
        expiry_date: expiry,
    };
    SubscriptionMint { mint_to, metadata, event }
}

/// Extends the subscription to `new_expiry` and makes it active, where the
/// signer owns it; otherwise leaves it as it is and fails.
pub fn extend_subscription(ctx: &mut ExtendSubscription, new_expiry: i64) -> (r: Result<
    SubscriptionExtended,
    ErrorCode,
>)
    ensures
        final(ctx).user == old(ctx).user,
        old(ctx).subscription_nft.user.bytes@ == old(ctx).user.bytes@ ==> {
            &&& r == Ok::<SubscriptionExtended, ErrorCode>(
                SubscriptionExtended {
                    user: old(ctx).user,
                    mint: old(ctx).subscription_nft.mint,
                    new_expiry,
                },
            )
            &&& final(ctx).subscription_nft == SubscriptionNFTData {
                expiry_date: new_expiry,
                status: SubscriptionStatus::Active,
                ..old(ctx).subscription_nft
            }
        },
        old(ctx).subscription_nft.user.bytes@ != old(ctx).user.bytes@ ==> {
            &&& r == Err::<SubscriptionExtended, ErrorCode>(ErrorCode::Unauthorized)
            &&& final(ctx).subscription_nft == old(ctx).subscription_nft
        },
{
    if !ctx.subscription_nft.user.same_as(&ctx.user) {
        return Err(ErrorCode::Unauthorized);
    }
    ctx.subscription_nft.expiry_date = new_expiry;
    ctx.subscription_nft.status = SubscriptionStatus::Active;
    Ok(SubscriptionExtended { user: ctx.user, mint: ctx.subscription_nft.mint, new_expiry })
}

/// The ledger record of a subscription to `subscription_id` on `mint`,
/// activated at `now` for `duration_days` days. The expiry must fit a
/// timestamp.
pub fn record_subscription(
    ctx: &SubscriptionRecord,
    mint: Address,
    subscription_id: u64,
    amount: u64,
    duration_days: u64,
    now: i64,
) -> (r: SubscriptionRecordData)
    requires
        expiry_fits(now, duration_days),
    ensures
        r == (SubscriptionRecordData {
            user: ctx.user,
            mint,
            subscription_id,
            amount,
            activation_date: now,
            expiry_date: expiry_of(now, duration_days) as i64,
            bump: ctx.bump,
        }),
{
    let expiry_date = expiry_date(now, duration_days).unwrap();
    SubscriptionRecordData {
        user: ctx.user,
        mint,
        subscription_id,
        amount,
        activation_date: now,
        expiry_date,
        bump: ctx.bump,
    }
}

/// The tag that starts the seeds of a subscription record: `b"subscription"`.
pub open spec fn subscription_tag() -> Seq<u8> {
    seq![115u8, 117, 98, 115, 99, 114, 105, 112, 116, 105, 111, 110]
}

/// The seeds of the subscription record of `user` for `subscription_id`.
pub open spec fn subscription_seeds(user: Address, subscription_id: u64) -> Seq<Seq<u8>> {
    seq![subscription_tag(), user.bytes@, u64_le(subscription_id)]
}

/// The seeds from which the address of a subscription record is derived.
pub fn subscription_record_seeds(user: &Address, subscription_id: u64) -> (r: Vec<Vec<u8>>)
    ensures
        r.deep_view() == subscription_seeds(*user, subscription_id),
{
    let tag: Vec<u8> = vec![115u8, 117, 98, 115, 99, 114, 105, 112, 116, 105, 111, 110];
    let mut id: Vec<u8> = Vec::new();
    push_u64_le(&mut id, subscription_id);
    assert(id@ =~= u64_le(subscription_id));
    let r: Vec<Vec<u8>> = vec![tag, user.to_vec(), id];
    assert(r@[0].deep_view() =~= subscription_tag());
    assert(r@[1].deep_view() =~= user.bytes@);
    assert(r@[2].deep_view() =~= u64_le(subscription_id));
    assert(r.deep_view() =~= subscription_seeds(*user, subscription_id));
    r
}


/// The address of the subscription record of `user` for `subscription_id` under the program
/// `program_id`, and its bump.
pub fn subscription_record_address(program_id: &Address, user: &Address, subscription_id: u64) -> (r: Option<(Address, u8)>)
    ensures
        derived_view(r) == program_address_of(subscription_seeds(*user, subscription_id), program_id.bytes@),
{
    let seeds = subscription_record_seeds(user, subscription_id);
    find_program_address(&seeds, program_id)
}

} // verus!
