use sleek::address::Address;
use sleek::bonk_rewards::{
    cashback_record_seeds, mint_cashback, record_cashback, redeem_cashback, CashbackMinted,
    CashbackRecord, CashbackRecordData, CashbackRedeemed, MintCashback, RedeemCashback,
    CASHBACK_RECORD_SPACE,
};
use sleek::cpi::AccountRole;
use sleek::sleek as instructions;

fn addr(b: u8) -> Address {
    Address { bytes: [b; 32] }
}

fn token_program() -> Address {
    Address {
        bytes: [
            6, 221, 246, 225, 215, 101, 161, 147, 217, 203, 225, 70, 206, 235, 121, 172, 28, 180,
            133, 237, 95, 91, 55, 145, 58, 140, 245, 133, 126, 255, 0, 169,
        ],
    }
}

#[test]
fn cashback_mint_to_receiver() {
    let ctx = MintCashback { mint: addr(1), to: addr(2), to_owner: addr(3), authority: addr(4) };
    let (call, event) = mint_cashback(&ctx, 250, 99);
    assert_eq!(call.program_id, token_program());
    assert_eq!(
        call.accounts,
        vec![
            AccountRole { address: addr(1), is_signer: false, is_writable: true },
            AccountRole { address: addr(2), is_signer: false, is_writable: true },
            AccountRole { address: addr(4), is_signer: true, is_writable: false },
        ]
    );
    assert_eq!(call.data, vec![7, 250, 0, 0, 0, 0, 0, 0, 0]);
    assert_eq!(event, CashbackMinted { user: addr(3), amount: 250, timestamp: 99 });
}

#[test]
fn cashback_redeem_to_treasury() {
    let ctx = RedeemCashback { mint: addr(1), from: addr(5), treasury: addr(6), user: addr(7) };
    let (call, event) = redeem_cashback(&ctx, 0x1_0000, 100);
    assert_eq!(call.program_id, token_program());
    assert_eq!(
        call.accounts,
        vec![
            AccountRole { address: addr(5), is_signer: false, is_writable: true },
            AccountRole { address: addr(6), is_signer: false, is_writable: true },
            AccountRole { address: addr(7), is_signer: true, is_writable: false },
        ]
    );
    assert_eq!(call.data, vec![3, 0, 0, 1, 0, 0, 0, 0, 0]);
    assert_eq!(event, CashbackRedeemed { user: addr(7), amount: 0x1_0000, timestamp: 100 });
}

#[test]
fn cashback_instructions_forward() {
    let m = MintCashback { mint: addr(1), to: addr(2), to_owner: addr(3), authority: addr(4) };
    assert_eq!(instructions::mint_cashback(&m, u64::MAX, 5), mint_cashback(&m, u64::MAX, 5));
    let r = RedeemCashback { mint: addr(1), from: addr(5), treasury: addr(6), user: addr(7) };
    assert_eq!(instructions::redeem_cashback(&r, 1, 5), redeem_cashback(&r, 1, 5));
}

#[test]
fn cashback_record_holds_arguments() {
    let ctx = CashbackRecord { user: addr(8), bump: 255 };
    assert_eq!(
        record_cashback(&ctx, 77, -5),
        CashbackRecordData { user: addr(8), amount: 77, timestamp: -5, bump: 255 }
    );
}

#[test]
fn cashback_seeds_negative_timestamp() {
    let seeds = cashback_record_seeds(&addr(2), -2);
    assert_eq!(seeds[0], b"cashback".to_vec());
    assert_eq!(seeds[1], vec![2u8; 32]);
    assert_eq!(seeds[2], (-2i64).to_le_bytes().to_vec());
    assert_eq!(seeds[2], vec![0xfe, 0xff, 0xff, 0xff, 0xff, 0xff, 0xff, 0xff]);
}

#[test]
fn cashback_seeds_extreme_timestamps() {
    assert_eq!(cashback_record_seeds(&addr(0), i64::MIN)[2], i64::MIN.to_le_bytes().to_vec());
    assert_eq!(cashback_record_seeds(&addr(0), i64::MAX)[2], i64::MAX.to_le_bytes().to_vec());
}

#[test]
fn cashback_space() {
    assert_eq!(CASHBACK_RECORD_SPACE, 65);
}
