use anchor_lang::solana_program::pubkey::Pubkey;
use sleek::address::Address;
use sleek::bonk_rewards::cashback_record_address;
use sleek::subscription_nft::subscription_record_address;
use sleek::subscription_payment::payment_record_address;

fn addr(b: u8) -> Address {
    Address { bytes: [b; 32] }
}

fn expected(seeds: &[&[u8]], program: &Address) -> Option<(Address, u8)> {
    let (key, bump) = Pubkey::find_program_address(seeds, &Pubkey::new_from_array(program.bytes));
    Some((Address { bytes: key.to_bytes() }, bump))
}

#[test]
fn payment_record_address_matches_runtime() {
    let program = addr(200);
    let user = addr(7);
    let got = payment_record_address(&program, &user, 42);
    assert_eq!(got, expected(&[b"payment", &user.bytes, &42u64.to_le_bytes()], &program));
    assert_ne!(got.unwrap().0, program);
}

#[test]
fn subscription_record_address_matches_runtime() {
    let program = addr(201);
    let user = addr(8);
    let got = subscription_record_address(&program, &user, 3);
    assert_eq!(got, expected(&[b"subscription", &user.bytes, &3u64.to_le_bytes()], &program));
}

#[test]
fn cashback_record_address_matches_runtime() {
    let program = addr(202);
    let user = addr(9);
    let got = cashback_record_address(&program, &user, -17);
    assert_eq!(got, expected(&[b"cashback", &user.bytes, &(-17i64).to_le_bytes()], &program));
}

#[test]
fn record_addresses_differ_by_kind() {
    let program = addr(203);
    let user = addr(1);
    let p = payment_record_address(&program, &user, 1).unwrap().0;
    let s = subscription_record_address(&program, &user, 1).unwrap().0;
    assert_ne!(p, s);
    let p2 = payment_record_address(&program, &user, 2).unwrap().0;
    assert_ne!(p, p2);
}
