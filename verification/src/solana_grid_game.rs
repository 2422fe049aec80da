//! A funding round for four parties with a deadline, whose collected value is
//! held by a vault of its own, apart from the ledger.
//!
//! The host authenticates the caller and moves the value. It hands the
//! ledger, the vault and the caller's identity to [`deposit`] as a
//! [`Deposit`]. When `deposit` accepts, the host moves the amount from the
//! depositor to the vault and keeps the new ledger; when the movement fails,
//! it keeps the old one.
//!
//! [`deposit`] reads the host's clock; [`deposit_at`] is the same step for a
//! time that the caller names.

use crate::accounting::{paid_slots, reported_total, tally, total_of, unpaid_row};
use crate::accounting::{
    lemma_paid_slots_bounded, lemma_paid_slots_unpaid, lemma_paid_slots_update,
    lemma_total_of_unpaid, lemma_total_of_update,
};
use crate::clock::unix_timestamp;
use crate::custody::{custody_address, custody_seeds, found_program_address};
use crate::custody::{derive_custody_address, find_custody_address, is_address};
use crate::identity::{all_distinct, find_slot, lemma_slot_of, slot_of};
use anchor_lang::prelude::{ProgramError, Pubkey};
use vstd::array::spec_array_update;
use vstd::prelude::*;

verus! {

/// Why an operation was turned down.
#[derive(Clone, Copy, Debug, PartialEq, Eq, Structural)]
pub enum ErrorCode {
    /// The address provided does not have permission to deposit.
    UnauthorizedDepositor,
    /// The address has already deposited.
    AlreadyDeposited,
    /// The funding time has expired.
    FundingExpired,
    /// The record to create already holds a ledger.
    ReinitializationRejected,
}

/// Why a deposit that reads the clock itself did not go through.
#[derive(Debug, PartialEq, Eq)]
pub enum DepositError {
    /// The clock could not be read, for the host's reason.
    ClockUnavailable(ProgramError),
    /// The clock was read, and the attempt was turned down.
    Rejected(ErrorCode),
}

/// The ledger of one round: who may pay, who has paid how much, and until when.
#[derive(Clone, Copy, Debug, PartialEq, Eq)]
pub struct SolHolder {
    /// Who created the round.
    pub authority: Pubkey,
    /// The parties that may deposit, one per slot.
    pub allowed_depositors: [Pubkey; 4],
    /// The amount that each slot has paid; zero marks an unpaid slot.
    pub deposits: [u64; 4],
    /// The running total of all accepted amounts.
    pub total_collected: u64,
    /// How many slots have paid so far.
    pub depositors_count: u8,
    /// The instant from which deposits are turned down.
    pub expiry_time: i64,
    /// The nonce that binds the vault's address to this ledger.
    pub vault_bump: u8,
}

/// The custody record of a round. It holds value and nothing else.
#[derive(Clone, Copy, Debug, PartialEq, Eq)]
pub struct Vault {
    /// The value held.
    pub lamports: u64,
}

/// What the creation of a round works on: the two record slots to fill, the
/// creator, and the nonce found for the vault's address.
#[derive(Clone, Copy, Debug, PartialEq, Eq)]
pub struct Initialize {
    /// The ledger's record: `None` until the round is created.
    pub sol_holder: Option<SolHolder>,
    /// The vault's record: `None` until the round is created.
    pub vault: Option<Vault>,
    /// The creator of the round.
    pub signer: Pubkey,
    /// The nonce of the vault's address.
    pub vault_bump: u8,
}

/// What a deposit works on: the ledger, its vault, and the authenticated
/// caller.
#[derive(Clone, Copy, Debug, PartialEq, Eq)]
pub struct Deposit {
    /// The ledger of the round.
    pub sol_holder: SolHolder,
    /// The vault of the round.
    pub vault: Vault,
    /// The caller.
    pub depositor: Pubkey,
}

impl ErrorCode {
    /// The sentence that explains the reason.
    pub open spec fn message_text(self) -> Seq<char> {
        match self {
            ErrorCode::UnauthorizedDepositor => "Address provided does not have permission to deposit"@,
            ErrorCode::AlreadyDeposited => "Address has already deposited"@,
            ErrorCode::FundingExpired => "Funding Time has expired"@,
            ErrorCode::ReinitializationRejected => "Ledger has already been initialized"@,
        }
    }

    /// Explains the reason in a sentence.
    pub fn message(&self) -> (text: &'static str)
        ensures
            text@ == self.message_text(),
    {
        match self {
            ErrorCode::UnauthorizedDepositor => "Address provided does not have permission to deposit",
            ErrorCode::AlreadyDeposited => "Address has already deposited",
            ErrorCode::FundingExpired => "Funding Time has expired",
            ErrorCode::ReinitializationRejected => "Ledger has already been initialized",
        }
    }
}

/// The label under which the address of a vault is derived: the five
/// letters of "vault", in ASCII.
pub open spec fn vault_label() -> Seq<u8> {
    seq![118u8, 97u8, 117u8, 108u8, 116u8]
}

/// The address of the vault that belongs to the ledger at `sol_holder` under
/// the nonce `vault_bump`, if that nonce gives one.
pub open spec fn vault_address_of(sol_holder: Pubkey, vault_bump: u8, program_id: Pubkey) -> Option<
    Pubkey,
> {
    custody_address(vault_label(), sol_holder, vault_bump, program_id)
}

impl Vault {
    /// The vault after it has received `amount`.
    pub open spec fn credited(self, amount: u64) -> Vault {
        Vault { lamports: self.lamports.saturating_add(amount) }
    }

    /// Reports the value held.
    pub fn held_value(&self) -> (held: u64)
        ensures
            held == self.lamports,
    {
        self.lamports
    }

    /// Receives a transfer. The held value never wraps: it stays at the largest
    /// representable value once it has reached it.
    pub fn receive(&mut self, amount: u64)
        ensures
            *final(self) == old(self).credited(amount),
    {
        self.lamports = self.lamports.saturating_add(amount);
    }
}

impl SolHolder {
    /// A ledger as it stands right after creation: nothing paid, nothing
    /// counted.
    pub open spec fn fresh(
        authority: Pubkey,
        allowed_depositors: [Pubkey; 4],
        expiry_time: i64,
        vault_bump: u8,
    ) -> SolHolder {
        SolHolder {
            authority,
            allowed_depositors,
            deposits: unpaid_row::<4>(),
            total_collected: 0,
            depositors_count: 0,
            expiry_time,
            vault_bump,
        }
    }

    /// The totals agree with the recorded amounts: the running total is their
    /// sum (held at the largest representable value where the sum has outgrown
    /// it), and the count is the number of paid slots.
    pub open spec fn consistent(self) -> bool {
        &&& self.total_collected == reported_total(self.deposits@)
        &&& self.depositors_count == paid_slots(self.deposits@).len()
    }

    /// No identity occupies two slots of the whitelist.
    pub open spec fn distinct_depositors(self) -> bool {
        self.allowed_depositors@.no_duplicates()
    }

    /// The ledger after `slot` has paid `amount`.
    pub open spec fn credited(self, slot: int, amount: u64) -> SolHolder {
        SolHolder {
            deposits: spec_array_update(self.deposits, slot, amount),
            total_collected: self.total_collected.saturating_add(amount),
            depositors_count: self.depositors_count.saturating_add(1u8),
            ..self
        }
    }

    /// Tells whether the totals agree with the recorded amounts.
    pub fn is_consistent(&self) -> (agrees: bool)
        ensures
            agrees == self.consistent(),
    {
        let (total, paid) = tally(&self.deposits);
        self.total_collected == total && self.depositors_count as usize == paid
    }

    /// Tells whether no identity occupies two slots of the whitelist.
    pub fn has_distinct_depositors(&self) -> (distinct: bool)
        ensures
            distinct == self.distinct_depositors(),
    {
        all_distinct(&self.allowed_depositors)
    }

    /// Tells whether `vault` is the address of this ledger's vault: the one
    /// that the ledger's own address, at `sol_holder`, and the nonce it has
    /// stored derive.
    pub fn owns_vault(&self, sol_holder: &Pubkey, vault: &Pubkey, program_id: &Pubkey) -> (owned:
        bool)
        ensures
            owned == (vault_address_of(*sol_holder, self.vault_bump, *program_id) == Some(*vault)),
    {
        let derived = vault_address(sol_holder, self.vault_bump, program_id);
        is_address(&derived, vault)
    }
}

impl Initialize {
    /// One of the two records exists already.
    pub open spec fn occupied(self) -> bool {
        self.sol_holder is Some || self.vault is Some
    }

    /// Both records, created for the given configuration.
    pub open spec fn created(self, allowed_depositors: [Pubkey; 4], expiry_time: i64) -> Initialize {
        Initialize {
            sol_holder: Some(
                SolHolder::fresh(self.signer, allowed_depositors, expiry_time, self.vault_bump),
            ),
            vault: Some(Vault { lamports: 0 }),
            ..self
        }
    }
}

impl Deposit {
    /// The caller's slot, if the whitelist holds the caller.
    pub open spec fn slot(self) -> Option<int> {
        slot_of(self.sol_holder.allowed_depositors@, self.depositor)
    }

    /// Why a deposit attempted at `current_time` is turned down, or `None`
    /// where it is accepted. The deadline is checked first, then the
    /// whitelist, then whether the caller's slot is still unpaid.
    pub open spec fn rejection(self, current_time: i64) -> Option<ErrorCode> {
        if current_time >= self.sol_holder.expiry_time {
            Some(ErrorCode::FundingExpired)
        } else {
            match self.slot() {
                None => Some(ErrorCode::UnauthorizedDepositor),
                Some(slot) => if self.sol_holder.deposits[slot] != 0 {
                    Some(ErrorCode::AlreadyDeposited)
                } else {
                    None
                },
            }
        }
    }

    /// How a deposit attempted at `current_time` ends.
    pub open spec fn verdict(self, current_time: i64) -> Result<(), ErrorCode> {
        match self.rejection(current_time) {
            Some(reason) => Err(reason),
            None => Ok(()),
        }
    }

    /// How a deposit ends for which the clock was read as `current_time`.
    pub open spec fn verdict_by_clock(self, current_time: i64) -> Result<(), DepositError> {
        match self.rejection(current_time) {
            Some(reason) => Err(DepositError::Rejected(reason)),
            None => Ok(()),
        }
    }

    /// The records after the caller's slot has paid `amount`.
    pub open spec fn settled(self, amount: u64) -> Deposit {
        Deposit {
            sol_holder: self.sol_holder.credited(self.slot().unwrap(), amount),
            vault: self.vault.credited(amount),
            ..self
        }
    }

    /// The records after a deposit of `amount` was attempted at
    /// `current_time`: settled where it is accepted, untouched where it is
    /// turned down.
    pub open spec fn after_attempt(self, amount: u64, current_time: i64) -> Deposit {
        if self.rejection(current_time) is None {
            self.settled(amount)
        } else {
            self
        }
    }

    /// The records after a row of attempts, one after the other, each given
    /// by its caller, its amount and its time.
    pub open spec fn after_attempts(self, attempts: Seq<(Pubkey, u64, i64)>) -> Deposit
        decreases attempts.len(),
    {
        if attempts.len() == 0 {
            self
        } else {
            let (depositor, amount, current_time) = attempts.last();
            let before = self.after_attempts(attempts.drop_last());
            Deposit { depositor, ..before }.after_attempt(amount, current_time)
        }
    }
}

/// Spells the label of a vault.
fn vault_label_bytes() -> (label: Vec<u8>)
    ensures
        label@ == vault_label(),
{
    let label: Vec<u8> = vec![118u8, 97u8, 117u8, 108u8, 116u8];
    assert(label@ =~= vault_label());
    label
}

/// Derives the address of the vault that belongs to the ledger at
/// `sol_holder` under the nonce `vault_bump`.
pub fn vault_address(sol_holder: &Pubkey, vault_bump: u8, program_id: &Pubkey) -> (address: Option<
    Pubkey,
>)
    ensures
        address == vault_address_of(*sol_holder, vault_bump, *program_id),
{
    derive_custody_address(vault_label_bytes(), sol_holder, vault_bump, program_id)
}

/// Searches the address and the nonce of the vault for the ledger at
/// `sol_holder`, as a round's creation needs them. The nonce found is one
/// that derives the address found.
pub fn find_vault(sol_holder: &Pubkey, program_id: &Pubkey) -> (found: Option<(Pubkey, u8)>)
    ensures
        found == found_program_address(custody_seeds(vault_label(), *sol_holder), *program_id),
        found matches Some((vault, vault_bump)) ==> vault_address_of(
            *sol_holder,
            vault_bump,
            *program_id,
        ) == Some(vault),
{
    find_custody_address(vault_label_bytes(), sol_holder, program_id)
}

/// Creates a round: a ledger with every slot unpaid and both totals at zero,
/// and an empty vault. Both records are created or neither is; a record that
/// exists already is never overwritten.
pub fn initialize(
    ctx: &mut Initialize,
    allowed_depositors: [Pubkey; 4],
    expiry_time: i64,
) -> (result: Result<(), ErrorCode>)
    ensures
        old(ctx).occupied() ==> result == Err::<(), ErrorCode>(ErrorCode::ReinitializationRejected)
            && *final(ctx) == *old(ctx),
        !old(ctx).occupied() ==> result is Ok && *final(ctx) == old(ctx).created(
            allowed_depositors,
            expiry_time,
        ),
        result is Ok ==> final(ctx).sol_holder.unwrap().consistent(),
        result is Ok ==> final(ctx).vault.unwrap().lamports
            == final(ctx).sol_holder.unwrap().total_collected,
{
    if ctx.sol_holder.is_some() || ctx.vault.is_some() {
        return Err(ErrorCode::ReinitializationRejected);
    }
    let sol_holder = SolHolder {
        authority: ctx.signer,
        allowed_depositors,
        deposits: [0u64;4],
        total_collected: 0,
        depositors_count: 0,
        expiry_time,
        vault_bump: ctx.vault_bump,
    };
    proof {
        lemma_total_of_unpaid(sol_holder.deposits@);
        lemma_paid_slots_unpaid(sol_holder.deposits@);
    }
    ctx.sol_holder = Some(sol_holder);
    ctx.vault = Some(Vault { lamports: 0 });
    Ok(())
}

/// Records the caller's single deposit, at the time that the host's clock
/// shows.
///
/// Where the clock cannot be read, nothing changes and the host's reason is
/// handed on. Otherwise the attempt ends as [`deposit_at`] ends it for the
/// time read.
pub fn deposit(ctx: &mut Deposit, amount: u64) -> (result: Result<(), DepositError>)
    ensures
        result matches Err(DepositError::ClockUnavailable(_)) ==> *final(ctx) == *old(ctx),
        !(result matches Err(DepositError::ClockUnavailable(_))) ==> exists|current_time: i64|
            {
                &&& result == old(ctx).verdict_by_clock(current_time)
                &&& *final(ctx) == #[trigger] old(ctx).after_attempt(amount, current_time)
            },
        result is Err ==> *final(ctx) == *old(ctx),
        amount > 0 && old(ctx).sol_holder.consistent() ==> final(ctx).sol_holder.consistent(),
        old(ctx).vault.lamports == old(ctx).sol_holder.total_collected ==> final(ctx).vault.lamports
            == final(ctx).sol_holder.total_collected,
{
    let current_time = match unix_timestamp() {
        Ok(current_time) => current_time,
        Err(reason) => {
            return Err(DepositError::ClockUnavailable(reason));
        },
    };
    match deposit_at(ctx, amount, current_time) {
        Ok(()) => Ok(()),
        Err(reason) => Err(DepositError::Rejected(reason)),
    }
}

/// Records the caller's single deposit, attempted at `current_time`.
///
/// The attempt is turned down, with nothing changed, when the deadline has
/// been reached, when the caller is not on the whitelist, or when the caller's
/// slot has been paid already, in this order. Otherwise the vault receives
/// `amount`, the caller's slot records it, and both totals move on.
pub fn deposit_at(ctx: &mut Deposit, amount: u64, current_time: i64) -> (result: Result<
    (),
    ErrorCode,
>)
    ensures
        result == old(ctx).verdict(current_time),
        *final(ctx) == old(ctx).after_attempt(amount, current_time),
        result is Err ==> *final(ctx) == *old(ctx),
        current_time >= old(ctx).sol_holder.expiry_time ==> result == Err::<(), ErrorCode>(
            ErrorCode::FundingExpired,
        ),
        current_time < old(ctx).sol_holder.expiry_time
            && !old(ctx).sol_holder.allowed_depositors@.contains(old(ctx).depositor) ==> result
            == Err::<(), ErrorCode>(ErrorCode::UnauthorizedDepositor),
        amount > 0 && old(ctx).sol_holder.consistent() ==> final(ctx).sol_holder.consistent(),
        old(ctx).vault.lamports == old(ctx).sol_holder.total_collected ==> final(ctx).vault.lamports
            == final(ctx).sol_holder.total_collected,
{
    proof {
        lemma_slot_of(ctx.sol_holder.allowed_depositors@, ctx.depositor);
        if amount > 0 && ctx.sol_holder.consistent() {
            lemma_deposit_keeps_ledger_consistent(*ctx, amount, current_time);
        }
    }
    if current_time >= ctx.sol_holder.expiry_time {
        return Err(ErrorCode::FundingExpired);
    }
    let slot = match find_slot(&ctx.sol_holder.allowed_depositors, &ctx.depositor) {
        Some(slot) => slot,
        None => {
            return Err(ErrorCode::UnauthorizedDepositor);
        },
    };
    if ctx.sol_holder.deposits[slot] != 0 {
        return Err(ErrorCode::AlreadyDeposited);
    }
    ctx.vault.receive(amount);
    ctx.sol_holder.deposits[slot] = amount;
    ctx.sol_holder.total_collected = ctx.sol_holder.total_collected.saturating_add(amount);
    ctx.sol_holder.depositors_count = ctx.sol_holder.depositors_count.saturating_add(1);
    assert(ctx.sol_holder.deposits =~= spec_array_update(
        old(ctx).sol_holder.deposits,
        slot as int,
        amount,
    ));
    Ok(())
}

/// Whitelist enforcement: whoever is not on the whitelist is turned down, and
/// nothing changes. Before the deadline the reason is the missing permission;
/// from the deadline on it is the deadline, which is checked first.
pub proof fn lemma_stranger_is_turned_down(ctx: Deposit, amount: u64, current_time: i64)
    requires
        !ctx.sol_holder.allowed_depositors@.contains(ctx.depositor),
    ensures
        ctx.rejection(current_time) is Some,
        current_time < ctx.sol_holder.expiry_time ==> ctx.rejection(current_time) == Some(
            ErrorCode::UnauthorizedDepositor,
        ),
        ctx.after_attempt(amount, current_time) == ctx,
{
    lemma_slot_of(ctx.sol_holder.allowed_depositors@, ctx.depositor);
}

/// Single deposit: once a party's deposit of a positive amount has been
/// accepted, every further attempt of that party is turned down and changes
/// nothing, so the amount recorded first stays. Before the deadline the reason
/// is that the party has paid; from the deadline on it is the deadline.
pub proof fn lemma_second_deposit_is_turned_down(
    ctx: Deposit,
    first_amount: u64,
    first_time: i64,
    second_amount: u64,
    second_time: i64,
)
    requires
        ctx.rejection(first_time) is None,
        first_amount > 0,
    ensures
        ({
            let paid = ctx.after_attempt(first_amount, first_time);
            &&& paid.sol_holder.deposits[ctx.slot().unwrap()] == first_amount
            &&& paid.rejection(second_time) is Some
            &&& second_time < ctx.sol_holder.expiry_time ==> paid.rejection(second_time) == Some(
                ErrorCode::AlreadyDeposited,
            )
            &&& paid.after_attempt(second_amount, second_time) == paid
        }),
{
    lemma_slot_of(ctx.sol_holder.allowed_depositors@, ctx.depositor);
}

/// Single deposit, at any later time: a party whose slot holds a payment is
/// turned down, whatever has happened to the other slots since, and nothing
/// changes. (A slot that holds a payment keeps it: see
/// [`lemma_deposit_is_additive`].)
pub proof fn lemma_paid_party_is_turned_down(ctx: Deposit, amount: u64, current_time: i64)
    requires
        ctx.slot() is Some,
        ctx.sol_holder.deposits[ctx.slot().unwrap()] != 0,
    ensures
        ctx.rejection(current_time) is Some,
        current_time < ctx.sol_holder.expiry_time ==> ctx.rejection(current_time) == Some(
            ErrorCode::AlreadyDeposited,
        ),
        ctx.after_attempt(amount, current_time) == ctx,
{
}

/// Deadline enforcement: an attempt at or after the deadline is turned down
/// for that reason, whoever makes it, and changes nothing.
pub proof fn lemma_late_deposit_is_turned_down(ctx: Deposit, amount: u64, current_time: i64)
    requires
        current_time >= ctx.sol_holder.expiry_time,
    ensures
        ctx.rejection(current_time) == Some(ErrorCode::FundingExpired),
        ctx.after_attempt(amount, current_time) == ctx,
{
}

/// No double counting: an attempt that is turned down, for whatever reason,
/// leaves the ledger and the vault as they were.
pub proof fn lemma_turned_down_changes_nothing(ctx: Deposit, amount: u64, current_time: i64)
    requires
        ctx.rejection(current_time) is Some,
    ensures
        ctx.after_attempt(amount, current_time) == ctx,
{
}

/// Accounting consistency of the ledger: after an attempt to deposit a
/// positive amount, accepted or not, the running total is still the sum of the
/// recorded amounts (held at the largest representable value where the sum has
/// outgrown it) and the count is still the number of paid slots.
pub proof fn lemma_deposit_keeps_ledger_consistent(ctx: Deposit, amount: u64, current_time: i64)
    requires
        ctx.sol_holder.consistent(),
        amount > 0,
    ensures
        ctx.after_attempt(amount, current_time).sol_holder.consistent(),
{
    if ctx.rejection(current_time) is None {
        lemma_slot_of(ctx.sol_holder.allowed_depositors@, ctx.depositor);
        let slot = ctx.slot().unwrap();
        let before = ctx.sol_holder.deposits@;
        lemma_total_of_update(before, slot, amount);
        lemma_paid_slots_update(before, slot, amount);
        lemma_paid_slots_bounded(before);
    }
}

/// Accounting consistency of the vault: a vault that holds what the ledger
/// reports as collected still does so after any attempt.
pub proof fn lemma_deposit_keeps_vault_in_step(ctx: Deposit, amount: u64, current_time: i64)
    requires
        ctx.vault.lamports == ctx.sol_holder.total_collected,
    ensures
        ({
            let after = ctx.after_attempt(amount, current_time);
            after.vault.lamports == after.sol_holder.total_collected
        }),
{
}

/// Accounting consistency at every state of a round: whatever attempts to
/// deposit positive amounts are made, by whomever and whenever, the ledger's
/// totals agree with its recorded amounts after each of them, and a vault
/// that was in step with the ledger stays in step.
pub proof fn lemma_round_stays_consistent(ctx: Deposit, attempts: Seq<(Pubkey, u64, i64)>)
    requires
        ctx.sol_holder.consistent(),
        forall|i: int| 0 <= i < attempts.len() ==> attempts[i].1 > 0,
    ensures
        ctx.after_attempts(attempts).sol_holder.consistent(),
        ctx.vault.lamports == ctx.sol_holder.total_collected ==> ctx.after_attempts(
            attempts,
        ).vault.lamports == ctx.after_attempts(attempts).sol_holder.total_collected,
    decreases attempts.len(),
{
    if attempts.len() > 0 {
        let (depositor, amount, current_time) = attempts.last();
        lemma_round_stays_consistent(ctx, attempts.drop_last());
        let before = Deposit { depositor, ..ctx.after_attempts(attempts.drop_last()) };
        lemma_deposit_keeps_ledger_consistent(before, amount, current_time);
    }
}

/// Accounting consistency in its exact form: while the sum of the recorded
/// amounts is representable, a consistent ledger reports exactly that sum.
pub proof fn lemma_consistent_total_is_exact(sol_holder: SolHolder)
    requires
        sol_holder.consistent(),
        total_of(sol_holder.deposits@) <= u64::MAX,
    ensures
        sol_holder.total_collected == total_of(sol_holder.deposits@),
        sol_holder.depositors_count == paid_slots(sol_holder.deposits@).len(),
{
}

/// The ledger only grows: an attempt never changes the configuration nor a
/// slot that is paid, and it never lowers a total.
pub proof fn lemma_deposit_is_additive(ctx: Deposit, amount: u64, current_time: i64)
    ensures
        ({
            let before = ctx.sol_holder;
            let after = ctx.after_attempt(amount, current_time).sol_holder;
            &&& after.authority == before.authority
            &&& after.allowed_depositors == before.allowed_depositors
            &&& after.expiry_time == before.expiry_time
            &&& after.vault_bump == before.vault_bump
            &&& forall|i: int| 0 <= i < 4 && before.deposits[i] != 0 ==> after.deposits[i] == before.deposits[i]
            &&& after.total_collected >= before.total_collected
            &&& after.depositors_count >= before.depositors_count
            &&& ctx.after_attempt(amount, current_time).vault.lamports >= ctx.vault.lamports
        }),
{
    lemma_slot_of(ctx.sol_holder.allowed_depositors@, ctx.depositor);
}

} // verus!
