use anchor_lang::prelude::Pubkey;
use deposit_ledger::valorant_performance_ledger::{
    deposit, initialize, Deposit, ErrorCode, Initialize, SolHolder,
};

fn key(tag: u8) -> Pubkey {
    Pubkey::new_from_array([tag; 32])
}

fn team() -> [Pubkey; 5] {
    [key(1), key(2), key(3), key(4), key(5)]
}

fn new_ledger() -> SolHolder {
    let mut ctx = Initialize { sol_holder: None, signer: key(9) };
    assert_eq!(initialize(&mut ctx, team()), Ok(()));
    ctx.sol_holder.unwrap()
}

fn tally_agrees(sol_holder: &SolHolder) -> bool {
    let sum: u128 = sol_holder.deposits.iter().map(|amount| *amount as u128).sum();
    let paid = sol_holder.deposits.iter().filter(|amount| **amount != 0).count();
    let by_hand = sol_holder.total_collected == sum.min(u64::MAX as u128) as u64
        && sol_holder.depositors_count as usize == paid;
    assert_eq!(sol_holder.is_consistent(), by_hand);
    by_hand
}

#[test]
fn ledger_creation_gives_five_unpaid_slots() {
    let mut ctx = Initialize { sol_holder: None, signer: key(9) };
    assert_eq!(initialize(&mut ctx, team()), Ok(()));
    assert_eq!(
        ctx.sol_holder,
        Some(SolHolder {
            authority: key(9),
            allowed_depositors: team(),
            deposits: [0, 0, 0, 0, 0],
            total_collected: 0,
            depositors_count: 0,
        })
    );
    assert_eq!(ctx.signer, key(9));
}

#[test]
fn ledger_creation_over_an_existing_ledger_is_turned_down() {
    let mut existing = new_ledger();
    existing.deposits[2] = 5;
    let mut ctx = Initialize { sol_holder: Some(existing), signer: key(8) };
    let before = ctx;
    assert_eq!(initialize(&mut ctx, team()), Err(ErrorCode::ReinitializationRejected));
    assert_eq!(ctx, before);
}

#[test]
fn ledger_records_the_first_deposit() {
    let mut ctx = Deposit { sol_holder: new_ledger(), depositor: key(1) };
    assert_eq!(deposit(&mut ctx, 100), Ok(()));
    assert_eq!(ctx.sol_holder.deposits, [100, 0, 0, 0, 0]);
    assert_eq!(ctx.sol_holder.total_collected, 100);
    assert_eq!(ctx.sol_holder.depositors_count, 1);
    assert_eq!(ctx.sol_holder.allowed_depositors, team());
    assert_eq!(ctx.sol_holder.authority, key(9));
    assert_eq!(ctx.depositor, key(1));
}

#[test]
fn ledger_turns_a_second_deposit_down() {
    let mut ctx = Deposit { sol_holder: new_ledger(), depositor: key(1) };
    assert_eq!(deposit(&mut ctx, 100), Ok(()));
    let before = ctx;
    assert_eq!(deposit(&mut ctx, 50), Err(ErrorCode::AlreadyDeposited));
    assert_eq!(ctx, before);
}

#[test]
fn ledger_turns_a_stranger_down() {
    let mut ctx = Deposit { sol_holder: new_ledger(), depositor: key(6) };
    let before = ctx;
    assert_eq!(deposit(&mut ctx, 75), Err(ErrorCode::UnauthorizedDepositor));
    assert_eq!(ctx, before);
}

#[test]
fn ledger_collects_a_full_round_of_five() {
    let mut ctx = Deposit { sol_holder: new_ledger(), depositor: key(1) };
    for (slot, amount) in [100u64, 200, 300, 400, 500].into_iter().enumerate() {
        ctx.depositor = team()[slot];
        assert_eq!(deposit(&mut ctx, amount), Ok(()));
        assert!(tally_agrees(&ctx.sol_holder));
    }
    assert_eq!(ctx.sol_holder.deposits, [100, 200, 300, 400, 500]);
    assert_eq!(ctx.sol_holder.total_collected, 1500);
    assert_eq!(ctx.sol_holder.depositors_count, 5);
    for party in team() {
        ctx.depositor = party;
        let before = ctx;
        assert_eq!(deposit(&mut ctx, 1), Err(ErrorCode::AlreadyDeposited));
        assert_eq!(ctx, before);
    }
}

#[test]
fn ledger_finds_the_last_slot() {
    let mut ctx = Deposit { sol_holder: new_ledger(), depositor: key(5) };
    assert_eq!(deposit(&mut ctx, 9), Ok(()));
    assert_eq!(ctx.sol_holder.deposits, [0, 0, 0, 0, 9]);
}

#[test]
fn ledger_total_stays_at_the_maximum_instead_of_wrapping() {
    let mut ctx = Deposit { sol_holder: new_ledger(), depositor: key(1) };
    assert_eq!(deposit(&mut ctx, u64::MAX - 2), Ok(()));
    ctx.depositor = key(2);
    assert_eq!(deposit(&mut ctx, 2), Ok(()));
    assert_eq!(ctx.sol_holder.total_collected, u64::MAX);
    ctx.depositor = key(3);
    assert_eq!(deposit(&mut ctx, 2), Ok(()));
    assert_eq!(ctx.sol_holder.total_collected, u64::MAX);
    assert_eq!(ctx.sol_holder.deposits, [u64::MAX - 2, 2, 2, 0, 0]);
    assert_eq!(ctx.sol_holder.depositors_count, 3);
    assert!(tally_agrees(&ctx.sol_holder));
}

#[test]
fn ledger_deposit_of_nothing_leaves_the_slot_unpaid() {
    let mut ctx = Deposit { sol_holder: new_ledger(), depositor: key(4) };
    assert_eq!(deposit(&mut ctx, 0), Ok(()));
    assert_eq!(ctx.sol_holder.deposits, [0, 0, 0, 0, 0]);
    assert_eq!(ctx.sol_holder.total_collected, 0);
    assert_eq!(ctx.sol_holder.depositors_count, 1);
}

#[test]
fn ledger_with_a_party_listed_twice_is_not_distinct() {
    let mut sol_holder = new_ledger();
    assert!(sol_holder.has_distinct_depositors());
    sol_holder.allowed_depositors[4] = key(1);
    assert!(!sol_holder.has_distinct_depositors());
    let mut ctx = Deposit { sol_holder, depositor: key(1) };
    assert_eq!(deposit(&mut ctx, 3), Ok(()));
    assert_eq!(ctx.sol_holder.deposits, [3, 0, 0, 0, 0]);
    assert_eq!(deposit(&mut ctx, 3), Err(ErrorCode::AlreadyDeposited));
}

#[test]
fn ledger_whose_totals_are_off_is_told_apart() {
    let mut sol_holder = new_ledger();
    assert!(tally_agrees(&sol_holder));
    sol_holder.deposits[4] = 6;
    assert!(!tally_agrees(&sol_holder));
    sol_holder.total_collected = 6;
    assert!(!tally_agrees(&sol_holder));
    sol_holder.depositors_count = 1;
    assert!(tally_agrees(&sol_holder));
}

#[test]
fn ledger_messages_name_the_reason() {
    assert_eq!(
        ErrorCode::UnauthorizedDepositor.message(),
        "Address provided does not have permission to deposit"
    );
    assert_eq!(ErrorCode::AlreadyDeposited.message(), "Address has already deposited");
    assert_eq!(
        ErrorCode::ReinitializationRejected.message(),
        "Ledger has already been initialized"
    );
}
