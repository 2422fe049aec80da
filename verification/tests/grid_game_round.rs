use anchor_lang::prelude::{ProgramError, Pubkey};
use deposit_ledger::solana_grid_game::{
    deposit, deposit_at, initialize, Deposit, DepositError, ErrorCode, Initialize, SolHolder,
    Vault,
};

const T: i64 = 1_700_000_000;

fn key(tag: u8) -> Pubkey {
    Pubkey::new_from_array([tag; 32])
}

fn a() -> Pubkey {
    key(1)
}

fn b() -> Pubkey {
    key(2)
}

fn c() -> Pubkey {
    key(3)
}

fn d() -> Pubkey {
    key(4)
}

fn e() -> Pubkey {
    key(5)
}

fn new_round() -> (SolHolder, Vault) {
    let mut ctx = Initialize { sol_holder: None, vault: None, signer: key(9), vault_bump: 254 };
    assert_eq!(initialize(&mut ctx, [a(), b(), c(), d()], T + 1000), Ok(()));
    (ctx.sol_holder.unwrap(), ctx.vault.unwrap())
}

fn round_after_first_deposit() -> Deposit {
    let (sol_holder, vault) = new_round();
    let mut ctx = Deposit { sol_holder, vault, depositor: a() };
    assert_eq!(deposit_at(&mut ctx, 100, T + 1), Ok(()));
    ctx
}

#[test]
fn creation_gives_an_unpaid_ledger_and_an_empty_vault() {
    let mut ctx = Initialize { sol_holder: None, vault: None, signer: key(9), vault_bump: 254 };
    assert_eq!(initialize(&mut ctx, [a(), b(), c(), d()], T + 1000), Ok(()));
    assert_eq!(
        ctx.sol_holder,
        Some(SolHolder {
            authority: key(9),
            allowed_depositors: [a(), b(), c(), d()],
            deposits: [0, 0, 0, 0],
            total_collected: 0,
            depositors_count: 0,
            expiry_time: T + 1000,
            vault_bump: 254,
        })
    );
    assert_eq!(ctx.vault, Some(Vault { lamports: 0 }));
    assert_eq!(ctx.signer, key(9));
    assert_eq!(ctx.vault_bump, 254);
}

#[test]
fn first_deposit_is_recorded() {
    let ctx = round_after_first_deposit();
    assert_eq!(ctx.sol_holder.deposits, [100, 0, 0, 0]);
    assert_eq!(ctx.sol_holder.total_collected, 100);
    assert_eq!(ctx.sol_holder.depositors_count, 1);
    assert_eq!(ctx.vault.held_value(), 100);
    assert_eq!(ctx.sol_holder.allowed_depositors, [a(), b(), c(), d()]);
    assert_eq!(ctx.sol_holder.authority, key(9));
    assert_eq!(ctx.sol_holder.expiry_time, T + 1000);
    assert_eq!(ctx.sol_holder.vault_bump, 254);
    assert_eq!(ctx.depositor, a());
}

#[test]
fn second_deposit_of_the_same_party_is_turned_down() {
    let mut ctx = round_after_first_deposit();
    let before = ctx;
    assert_eq!(deposit_at(&mut ctx, 50, T + 2), Err(ErrorCode::AlreadyDeposited));
    assert_eq!(ctx, before);
    assert_eq!(ctx.sol_holder.deposits, [100, 0, 0, 0]);
}

#[test]
fn deposit_of_a_stranger_is_turned_down() {
    let mut ctx = round_after_first_deposit();
    ctx.depositor = e();
    let before = ctx;
    assert_eq!(deposit_at(&mut ctx, 75, T + 3), Err(ErrorCode::UnauthorizedDepositor));
    assert_eq!(ctx, before);
}

#[test]
fn deposit_past_expiry_is_turned_down() {
    let mut ctx = round_after_first_deposit();
    ctx.depositor = b();
    let before = ctx;
    assert_eq!(deposit_at(&mut ctx, 30, T + 1001), Err(ErrorCode::FundingExpired));
    assert_eq!(ctx, before);
}

#[test]
fn full_round_collects_every_deposit() {
    let (sol_holder, vault) = new_round();
    let mut ctx = Deposit { sol_holder, vault, depositor: a() };
    assert_eq!(deposit_at(&mut ctx, 100, T + 1), Ok(()));
    ctx.depositor = b();
    assert_eq!(deposit_at(&mut ctx, 200, T + 2), Ok(()));
    ctx.depositor = c();
    assert_eq!(deposit_at(&mut ctx, 300, T + 3), Ok(()));
    ctx.depositor = d();
    assert_eq!(deposit_at(&mut ctx, 400, T + 4), Ok(()));
    assert_eq!(ctx.sol_holder.deposits, [100, 200, 300, 400]);
    assert_eq!(ctx.sol_holder.total_collected, 1000);
    assert_eq!(ctx.sol_holder.depositors_count, 4);
    assert_eq!(ctx.vault.held_value(), 1000);
}

#[test]
fn creation_over_an_existing_ledger_is_turned_down() {
    let paid = round_after_first_deposit();
    let mut ctx = Initialize {
        sol_holder: Some(paid.sol_holder),
        vault: Some(paid.vault),
        signer: key(8),
        vault_bump: 7,
    };
    let before = ctx;
    assert_eq!(
        initialize(&mut ctx, [e(), b(), c(), d()], T + 5000),
        Err(ErrorCode::ReinitializationRejected)
    );
    assert_eq!(ctx, before);
    assert_eq!(ctx.sol_holder.unwrap().deposits, [100, 0, 0, 0]);
}

#[test]
fn creation_is_turned_down_when_only_the_ledger_exists() {
    let (sol_holder, _) = new_round();
    let mut ctx =
        Initialize { sol_holder: Some(sol_holder), vault: None, signer: key(8), vault_bump: 7 };
    let before = ctx;
    assert_eq!(
        initialize(&mut ctx, [a(), b(), c(), d()], T),
        Err(ErrorCode::ReinitializationRejected)
    );
    assert_eq!(ctx, before);
}

#[test]
fn creation_is_turned_down_when_only_the_vault_exists() {
    let mut ctx = Initialize {
        sol_holder: None,
        vault: Some(Vault { lamports: 12 }),
        signer: key(8),
        vault_bump: 7,
    };
    let before = ctx;
    assert_eq!(
        initialize(&mut ctx, [a(), b(), c(), d()], T),
        Err(ErrorCode::ReinitializationRejected)
    );
    assert_eq!(ctx, before);
}

#[test]
fn deposits_in_any_order_land_in_the_slot_of_their_party() {
    let (sol_holder, vault) = new_round();
    let mut ctx = Deposit { sol_holder, vault, depositor: c() };
    assert_eq!(deposit_at(&mut ctx, 7, T), Ok(()));
    assert_eq!(ctx.sol_holder.deposits, [0, 0, 7, 0]);
    ctx.depositor = d();
    assert_eq!(deposit_at(&mut ctx, 9, T), Ok(()));
    assert_eq!(ctx.sol_holder.deposits, [0, 0, 7, 9]);
    ctx.depositor = a();
    assert_eq!(deposit_at(&mut ctx, 11, T), Ok(()));
    assert_eq!(ctx.sol_holder.deposits, [11, 0, 7, 9]);
    assert_eq!(ctx.sol_holder.total_collected, 27);
    assert_eq!(ctx.sol_holder.depositors_count, 3);
    assert_eq!(ctx.vault.held_value(), 27);
}

#[test]
fn grid_game_messages_name_the_reason() {
    assert_eq!(
        ErrorCode::UnauthorizedDepositor.message(),
        "Address provided does not have permission to deposit"
    );
    assert_eq!(ErrorCode::AlreadyDeposited.message(), "Address has already deposited");
    assert_eq!(ErrorCode::FundingExpired.message(), "Funding Time has expired");
    assert_eq!(
        ErrorCode::ReinitializationRejected.message(),
        "Ledger has already been initialized"
    );
}

#[test]
fn deposit_where_no_clock_can_be_read_changes_nothing() {
    let (sol_holder, vault) = new_round();
    let mut ctx = Deposit { sol_holder, vault, depositor: a() };
    let before = ctx;
    assert_eq!(
        deposit(&mut ctx, 100),
        Err(DepositError::ClockUnavailable(ProgramError::UnsupportedSysvar))
    );
    assert_eq!(ctx, before);
    ctx.depositor = e();
    assert_eq!(
        deposit(&mut ctx, 100),
        Err(DepositError::ClockUnavailable(ProgramError::UnsupportedSysvar))
    );
    assert_eq!(ctx, Deposit { depositor: e(), ..before });
}
