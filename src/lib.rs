//! Subscription payments, token cashback and subscription NFTs: the
//! program's decisions, records, derived addresses, outgoing calls and
//! events as verified functions on plain values.
pub mod address;
pub mod bonk_rewards;
pub mod cpi;
pub mod decimal;
pub mod sleek;
pub mod subscription_nft;
pub mod subscription_payment;
