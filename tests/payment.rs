use sleek::address::Address;
use sleek::cpi::AccountRole;
use sleek::sleek::process_subscription_payment;
use sleek::subscription_payment::{
    payment_record_seeds, process_payment, record_payment, PaymentProcessed, PaymentRecord,
    PaymentRecordData, ProcessPayment, PAYMENT_RECORD_SPACE,
};

fn addr(b: u8) -> Address {
    Address { bytes: [b; 32] }
}

#[test]
fn payment_builds_system_transfer() {
    let ctx = ProcessPayment { user: addr(1), treasury: addr(2) };
    let (call, event) = process_payment(&ctx, 42, 1_000_000_000, 1_700_000_000);
    assert_eq!(call.program_id, Address { bytes: [0; 32] });
    assert_eq!(
        call.accounts,
        vec![
            AccountRole { address: addr(1), is_signer: true, is_writable: true },
            AccountRole { address: addr(2), is_signer: false, is_writable: true },
        ]
    );
    assert_eq!(call.data, vec![2, 0, 0, 0, 0x00, 0xca, 0x9a, 0x3b, 0, 0, 0, 0]);
    assert_eq!(
        event,
        PaymentProcessed { user: addr(1), subscription_id: 42, amount: 1_000_000_000, timestamp: 1_700_000_000 }
    );
}

#[test]
fn payment_instruction_forwards() {
    let ctx = ProcessPayment { user: addr(3), treasury: addr(4) };
    assert_eq!(process_subscription_payment(&ctx, 7, 5, -1), process_payment(&ctx, 7, 5, -1));
}

#[test]
fn payment_of_zero_amount() {
    let ctx = ProcessPayment { user: addr(1), treasury: addr(2) };
    let (call, event) = process_payment(&ctx, 0, 0, 0);
    assert_eq!(call.data, vec![2, 0, 0, 0, 0, 0, 0, 0, 0, 0, 0, 0]);
    assert_eq!(event.amount, 0);
}

#[test]
fn payment_record_holds_arguments() {
    let ctx = PaymentRecord { user: addr(9), bump: 254 };
    assert_eq!(
        record_payment(&ctx, 3, 500, 1234),
        PaymentRecordData { user: addr(9), subscription_id: 3, amount: 500, timestamp: 1234, bump: 254 }
    );
}

#[test]
fn payment_seeds_layout() {
    let seeds = payment_record_seeds(&addr(5), 0x0102030405060708);
    assert_eq!(seeds.len(), 3);
    assert_eq!(seeds[0], b"payment".to_vec());
    assert_eq!(seeds[1], vec![5u8; 32]);
    assert_eq!(seeds[2], 0x0102030405060708u64.to_le_bytes().to_vec());
    assert_eq!(seeds[2], vec![8, 7, 6, 5, 4, 3, 2, 1]);
}

#[test]
fn payment_space() {
    assert_eq!(PAYMENT_RECORD_SPACE, 72);
}
