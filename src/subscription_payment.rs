//! Paying for a subscription in the native currency, and the record of a
//! payment.
use vstd::prelude::*;

use crate::address::{derived_view, find_program_address, program_address_of, push_u64_le, u64_le, Address};
use crate::cpi::{role, system_program_id, system_transfer, system_transfer_data, CrossProgramCall};

verus! {

/// Bytes of a payment record account: discriminator, user, subscription id,
/// amount, timestamp and bump.
pub const PAYMENT_RECORD_SPACE: usize = 8 + 32 + 8 + 8 + 8 + 8;

/// The accounts of a payment: the paying user and the treasury.
#[derive(Clone, Copy, Debug, PartialEq, Eq)]
pub struct ProcessPayment {
    pub user: Address,
    pub treasury: Address,
}

/// The accounts of a payment record: the user, who pays for the account, and
/// the bump of the record's derived address.
#[derive(Clone, Copy, Debug, PartialEq, Eq)]
pub struct PaymentRecord {
    pub user: Address,
    pub bump: u8,
}

/// What a payment record account holds.
#[derive(Clone, Copy, Debug, PartialEq, Eq)]
pub struct PaymentRecordData {
    pub user: Address,
    pub subscription_id: u64,
    pub amount: u64,
    pub timestamp: i64,
    pub bump: u8,
}

/// Event of a processed payment.
#[derive(Clone, Copy, Debug, PartialEq, Eq)]
pub struct PaymentProcessed {
    pub user: Address,
    pub subscription_id: u64,
    pub amount: u64,
    pub timestamp: i64,
}

/// The tag that starts the seeds of a payment record: `b"payment"`.
pub open spec fn payment_tag() -> Seq<u8> {
    seq![112u8, 97, 121, 109, 101, 110, 116]
}

/// The seeds of the payment record of `user` for `subscription_id`.
pub open spec fn payment_seeds(user: Address, subscription_id: u64) -> Seq<Seq<u8>> {
    seq![payment_tag(), user.bytes@, u64_le(subscription_id)]
}

/// Processes a payment of `amount` lamports for `subscription_id` at time
/// `now`: the transfer from the user to the treasury, and the event.
pub fn process_payment(ctx: &ProcessPayment, subscription_id: u64, amount: u64, now: i64) -> (r: (
    CrossProgramCall,
    PaymentProcessed,
))
    ensures
        r.0.program_id.bytes@ == system_program_id(),
        r.0.accounts@ == seq![role(ctx.user, true, true), role(ctx.treasury, false, true)],
        r.0.data@ == system_transfer_data(amount),
        r.1 == (PaymentProcessed { user: ctx.user, subscription_id, amount, timestamp: now }),
{
    let transfer = system_transfer(&ctx.user, &ctx.treasury, amount);
    let event = PaymentProcessed { user: ctx.user, subscription_id, amount, timestamp: now };
    (transfer, event)
}

/// The record of a payment of `amount` for `subscription_id` made at `now`.
pub fn record_payment(ctx: &PaymentRecord, subscription_id: u64, amount: u64, now: i64) -> (r:
    PaymentRecordData)
    ensures
        r == (PaymentRecordData {
            user: ctx.user,
            subscription_id,
            amount,
            timestamp: now,
            bump: ctx.bump,
        }),
{
    PaymentRecordData { user: ctx.user, subscription_id, amount, timestamp: now, bump: ctx.bump }
}

/// The seeds from which the address of a payment record is derived.
pub fn payment_record_seeds(user: &Address, subscription_id: u64) -> (r: Vec<Vec<u8>>)
    ensures
        r.deep_view() == payment_seeds(*user, subscription_id),
{
    let tag: Vec<u8> = vec![112u8, 97, 121, 109, 101, 110, 116];
    let mut id: Vec<u8> = Vec::new();
    push_u64_le(&mut id, subscription_id);
    assert(id@ =~= u64_le(subscription_id));
    let r: Vec<Vec<u8>> = vec![tag, user.to_vec(), id];
    assert(r@[0].deep_view() =~= payment_tag());
    assert(r@[1].deep_view() =~= user.bytes@);
    assert(r@[2].deep_view() =~= u64_le(subscription_id));
    assert(r.deep_view() =~= payment_seeds(*user, subscription_id));
    r
}


/// The address of the payment record of `user` for `subscription_id` under the program
/// `program_id`, and its bump.
pub fn payment_record_address(program_id: &Address, user: &Address, subscription_id: u64) -> (r: Option<(Address, u8)>)
    ensures
        derived_view(r) == program_address_of(payment_seeds(*user, subscription_id), program_id.bytes@),
{
    let seeds = payment_record_seeds(user, subscription_id);
    find_program_address(&seeds, program_id)
}

} // verus!
