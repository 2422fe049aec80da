//! A funding round for five parties without a deadline, whose ledger is its
//! own custody record: the value collected lies with the ledger's record, and
//! `total_collected` is the ledger's account of it.
//!
//! The host authenticates the caller and moves the value. It hands the ledger
//! and the caller's identity to [`deposit`] as a [`Deposit`]. When `deposit`
//! accepts, the host moves the amount from the depositor to the ledger's
//! record and keeps the new ledger; when the movement fails, it keeps the old
//! one.

use crate::accounting::{paid_slots, reported_total, tally, total_of, unpaid_row};
use crate::accounting::{
    lemma_paid_slots_bounded, lemma_paid_slots_unpaid, lemma_paid_slots_update,
    lemma_total_of_unpaid, lemma_total_of_update,
};
use crate::identity::{all_distinct, find_slot, lemma_slot_of, slot_of};
use anchor_lang::prelude::Pubkey;
use vstd::array::spec_array_update;
use vstd::prelude::*;

verus! {

/// Why an operation was turned down.
#[derive(Clone, Copy, Debug, PartialEq, Eq, Structural)]
pub enum ErrorCode {
    /// The address provided does not have permission to deposit.
    UnauthorizedDepositor,
    /// The address has already deposited.
    AlreadyDeposited,
    /// The record to create already holds a ledger.
    ReinitializationRejected,
}

/// The ledger of one round: who may pay and who has paid how much.
#[derive(Clone, Copy, Debug, PartialEq, Eq)]
pub struct SolHolder {
    /// Who created the round.
    pub authority: Pubkey,
    /// The parties that may deposit, one per slot.
    pub allowed_depositors: [Pubkey; 5],
    /// The amount that each slot has paid; zero marks an unpaid slot.
    pub deposits: [u64; 5],
    /// The running total of all accepted amounts.
    pub total_collected: u64,
    /// How many slots have paid so far.
    pub depositors_count: u8,
}

/// What the creation of a round works on: the record slot to fill and the
/// creator.
#[derive(Clone, Copy, Debug, PartialEq, Eq)]
pub struct Initialize {
    /// The ledger's record: `None` until the round is created.
    pub sol_holder: Option<SolHolder>,
    /// The creator of the round.
    pub signer: Pubkey,
}

/// What a deposit works on: the ledger and the authenticated caller.
#[derive(Clone, Copy, Debug, PartialEq, Eq)]
pub struct Deposit {
    /// The ledger of the round.
    pub sol_holder: SolHolder,
    /// The caller.
    pub depositor: Pubkey,
}

impl ErrorCode {
    /// The sentence that explains the reason.
    pub open spec fn message_text(self) -> Seq<char> {
        match self {
            ErrorCode::UnauthorizedDepositor => "Address provided does not have permission to deposit"@,
            ErrorCode::AlreadyDeposited => "Address has already deposited"@,
            ErrorCode::ReinitializationRejected => "Ledger has already been initialized"@,
        }
    }

    /// Explains the reason in a sentence.
    pub fn message(&self) -> (text: &'static str)
        ensures
            text@ == self.message_text(),
    {
        match self {
            ErrorCode::UnauthorizedDepositor => "Address provided does not have permission to deposit",
            ErrorCode::AlreadyDeposited => "Address has already deposited",
            ErrorCode::ReinitializationRejected => "Ledger has already been initialized",
        }
    }
}

impl SolHolder {
    /// A ledger as it stands right after creation: nothing paid, nothing
    /// counted.
    pub open spec fn fresh(authority: Pubkey, allowed_depositors: [Pubkey; 5]) -> SolHolder {
        SolHolder {
            authority,
            allowed_depositors,
            deposits: unpaid_row::<5>(),
            total_collected: 0,
            depositors_count: 0,
        }
    }

    /// The totals agree with the recorded amounts: the running total is their
    /// sum (held at the largest representable value where the sum has outgrown
    /// it), and the count is the number of paid slots.
    pub open spec fn consistent(self) -> bool {
        &&& self.total_collected == reported_total(self.deposits@)
        &&& self.depositors_count == paid_slots(self.deposits@).len()
    }

    /// No identity occupies two slots of the whitelist.
    pub open spec fn distinct_depositors(self) -> bool {
        self.allowed_depositors@.no_duplicates()
    }

    /// The ledger after `slot` has paid `amount`.
    pub open spec fn credited(self, slot: int, amount: u64) -> SolHolder {
        SolHolder {
            deposits: spec_array_update(self.deposits, slot, amount),
            total_collected: self.total_collected.saturating_add(amount),
            depositors_count: self.depositors_count.saturating_add(1u8),
            ..self
        }
    }

    /// Tells whether the totals agree with the recorded amounts.
    pub fn is_consistent(&self) -> (agrees: bool)
        ensures
            agrees == self.consistent(),
    {
        let (total, paid) = tally(&self.deposits);
        self.total_collected == total && self.depositors_count as usize == paid
    }

    /// Tells whether no identity occupies two slots of the whitelist.
    pub fn has_distinct_depositors(&self) -> (distinct: bool)
        ensures
            distinct == self.distinct_depositors(),
    {
        all_distinct(&self.allowed_depositors)
    }
}

impl Initialize {
    /// The record exists already.
    pub open spec fn occupied(self) -> bool {
        self.sol_holder is Some
    }

    /// The record, created for the given whitelist.
    pub open spec fn created(self, allowed_depositors: [Pubkey; 5]) -> Initialize {
        Initialize { sol_holder: Some(SolHolder::fresh(self.signer, allowed_depositors)), ..self }
    }
}

impl Deposit {
    /// The caller's slot, if the whitelist holds the caller.
    pub open spec fn slot(self) -> Option<int> {
        slot_of(self.sol_holder.allowed_depositors@, self.depositor)
    }

    /// Why a deposit is turned down, or `None` where it is accepted. The
    /// whitelist is checked first, then whether the caller's slot is still
    /// unpaid.
    pub open spec fn rejection(self) -> Option<ErrorCode> {
        match self.slot() {
            None => Some(ErrorCode::UnauthorizedDepositor),
            Some(slot) => if self.sol_holder.deposits[slot] != 0 {
                Some(ErrorCode::AlreadyDeposited)
            } else {
                None
            },
        }
    }

    /// The ledger after the caller's slot has paid `amount`.
    pub open spec fn settled(self, amount: u64) -> Deposit {
        Deposit { sol_holder: self.sol_holder.credited(self.slot().unwrap(), amount), ..self }
    }

    /// The ledger after a deposit of `amount` was attempted: settled where it
    /// is accepted, untouched where it is turned down.
    pub open spec fn after_attempt(self, amount: u64) -> Deposit {
        if self.rejection() is None {
            self.settled(amount)
        } else {
            self
        }
    }

    /// The ledger after a row of attempts, one after the other, each given by
    /// its caller and its amount.
    pub open spec fn after_attempts(self, attempts: Seq<(Pubkey, u64)>) -> Deposit
        decreases attempts.len(),
    {
        if attempts.len() == 0 {
            self
        } else {
            let (depositor, amount) = attempts.last();
            let before = self.after_attempts(attempts.drop_last());
            Deposit { depositor, ..before }.after_attempt(amount)
        }
    }
}

/// Creates a round: a ledger with every slot unpaid and both totals at zero.
/// A record that exists already is never overwritten.
pub fn initialize(ctx: &mut Initialize, allowed_depositors: [Pubkey; 5]) -> (result: Result<
    (),
    ErrorCode,
>)
    ensures
        old(ctx).occupied() ==> result == Err::<(), ErrorCode>(ErrorCode::ReinitializationRejected)
            && *final(ctx) == *old(ctx),
        !old(ctx).occupied() ==> result is Ok && *final(ctx) == old(ctx).created(
            allowed_depositors,
        ),
        result is Ok ==> final(ctx).sol_holder.unwrap().consistent(),
{
    if ctx.sol_holder.is_some() {
        return Err(ErrorCode::ReinitializationRejected);
    }
    let sol_holder = SolHolder {
        authority: ctx.signer,
        allowed_depositors,
        deposits: [0u64;5],
        total_collected: 0,
        depositors_count: 0,
    };
    proof {
        lemma_total_of_unpaid(sol_holder.deposits@);
        lemma_paid_slots_unpaid(sol_holder.deposits@);
    }
    ctx.sol_holder = Some(sol_holder);
    Ok(())
}

/// Records the caller's single deposit.
///
/// The attempt is turned down, with nothing changed, when the caller is not
/// on the whitelist or when the caller's slot has been paid already, in this
/// order. Otherwise the caller's slot records `amount` and both totals move
/// on.
pub fn deposit(ctx: &mut Deposit, amount: u64) -> (result: Result<(), ErrorCode>)
    ensures
        match old(ctx).rejection() {
            Some(reason) => result == Err::<(), ErrorCode>(reason),
            None => result is Ok,
        },
        *final(ctx) == old(ctx).after_attempt(amount),
        result is Err ==> *final(ctx) == *old(ctx),
        !old(ctx).sol_holder.allowed_depositors@.contains(old(ctx).depositor) ==> result == Err::<
            (),
            ErrorCode,
        >(ErrorCode::UnauthorizedDepositor),
        amount > 0 && old(ctx).sol_holder.consistent() ==> final(ctx).sol_holder.consistent(),
{
    proof {
        lemma_slot_of(ctx.sol_holder.allowed_depositors@, ctx.depositor);
        if amount > 0 && ctx.sol_holder.consistent() {
            lemma_deposit_keeps_ledger_consistent(*ctx, amount);
        }
    }
    let slot = match find_slot(&ctx.sol_holder.allowed_depositors, &ctx.depositor) {
        Some(slot) => slot,
        None => {
            return Err(ErrorCode::UnauthorizedDepositor);
        },
    };
    if ctx.sol_holder.deposits[slot] != 0 {
        return Err(ErrorCode::AlreadyDeposited);
    }
    ctx.sol_holder.deposits[slot] = amount;
    ctx.sol_holder.total_collected = ctx.sol_holder.total_collected.saturating_add(amount);
    ctx.sol_holder.depositors_count = ctx.sol_holder.depositors_count.saturating_add(1);
    assert(ctx.sol_holder.deposits =~= spec_array_update(
        old(ctx).sol_holder.deposits,
        slot as int,
        amount,
    ));
    Ok(())
}

/// Whitelist enforcement: whoever is not on the whitelist is turned down for
/// the missing permission, and nothing changes.
pub proof fn lemma_stranger_is_turned_down(ctx: Deposit, amount: u64)
    requires
        !ctx.sol_holder.allowed_depositors@.contains(ctx.depositor),
    ensures
        ctx.rejection() == Some(ErrorCode::UnauthorizedDepositor),
        ctx.after_attempt(amount) == ctx,
{
    lemma_slot_of(ctx.sol_holder.allowed_depositors@, ctx.depositor);
}

/// Single deposit: once a party's deposit of a positive amount has been
/// accepted, every further attempt of that party is turned down because the
/// party has paid, and changes nothing, so the amount recorded first stays.
pub proof fn lemma_second_deposit_is_turned_down(
    ctx: Deposit,
    first_amount: u64,
    second_amount: u64,
)
    requires
        ctx.rejection() is None,
        first_amount > 0,
    ensures
        ({
            let paid = ctx.after_attempt(first_amount);
            &&& paid.sol_holder.deposits[ctx.slot().unwrap()] == first_amount
            &&& paid.rejection() == Some(ErrorCode::AlreadyDeposited)
            &&& paid.after_attempt(second_amount) == paid
        }),
{
    lemma_slot_of(ctx.sol_holder.allowed_depositors@, ctx.depositor);
}

/// Single deposit, at any later time: a party whose slot holds a payment is
/// turned down because it has paid, whatever has happened to the other slots
/// since, and nothing changes. (A slot that holds a payment keeps it: see
/// [`lemma_deposit_is_additive`].)
pub proof fn lemma_paid_party_is_turned_down(ctx: Deposit, amount: u64)
    requires
        ctx.slot() is Some,
        ctx.sol_holder.deposits[ctx.slot().unwrap()] != 0,
    ensures
        ctx.rejection() == Some(ErrorCode::AlreadyDeposited),
        ctx.after_attempt(amount) == ctx,
{
}

/// No double counting: an attempt that is turned down, for whatever reason,
/// leaves the ledger as it was.
pub proof fn lemma_turned_down_changes_nothing(ctx: Deposit, amount: u64)
    requires
        ctx.rejection() is Some,
    ensures
        ctx.after_attempt(amount) == ctx,
{
}

/// Accounting consistency: after an attempt to deposit a positive amount,
/// accepted or not, the running total is still the sum of the recorded amounts
/// (held at the largest representable value where the sum has outgrown it) and
/// the count is still the number of paid slots.
pub proof fn lemma_deposit_keeps_ledger_consistent(ctx: Deposit, amount: u64)
    requires
        ctx.sol_holder.consistent(),
        amount > 0,
    ensures
        ctx.after_attempt(amount).sol_holder.consistent(),
{
    if ctx.rejection() is None {
        lemma_slot_of(ctx.sol_holder.allowed_depositors@, ctx.depositor);
        let slot = ctx.slot().unwrap();
        let before = ctx.sol_holder.deposits@;
        lemma_total_of_update(before, slot, amount);
        lemma_paid_slots_update(before, slot, amount);
        lemma_paid_slots_bounded(before);
    }
}

/// Accounting consistency at every state of a round: whatever attempts to
/// deposit positive amounts are made, by whomever, the ledger's totals agree
/// with its recorded amounts after each of them.
pub proof fn lemma_round_stays_consistent(ctx: Deposit, attempts: Seq<(Pubkey, u64)>)
    requires
        ctx.sol_holder.consistent(),
        forall|i: int| 0 <= i < attempts.len() ==> attempts[i].1 > 0,
    ensures
        ctx.after_attempts(attempts).sol_holder.consistent(),
    decreases attempts.len(),
{
    if attempts.len() > 0 {
        let (depositor, amount) = attempts.last();
        lemma_round_stays_consistent(ctx, attempts.drop_last());
        let before = Deposit { depositor, ..ctx.after_attempts(attempts.drop_last()) };
        lemma_deposit_keeps_ledger_consistent(before, amount);
    }
}

/// Accounting consistency in its exact form: while the sum of the recorded
/// amounts is representable, a consistent ledger reports exactly that sum.
pub proof fn lemma_consistent_total_is_exact(sol_holder: SolHolder)
    requires
        sol_holder.consistent(),
        total_of(sol_holder.deposits@) <= u64::MAX,
    ensures
        sol_holder.total_collected == total_of(sol_holder.deposits@),
        sol_holder.depositors_count == paid_slots(sol_holder.deposits@).len(),
{
}

/// The ledger only grows: an attempt never changes the configuration nor a
/// slot that is paid, and it never lowers a total.
pub proof fn lemma_deposit_is_additive(ctx: Deposit, amount: u64)
    ensures
        ({
            let before = ctx.sol_holder;
            let after = ctx.after_attempt(amount).sol_holder;
            &&& after.authority == before.authority
            &&& after.allowed_depositors == before.allowed_depositors
            &&& forall|i: int|
                0 <= i < 5 && before.deposits[i] != 0 ==> after.deposits[i] == before.deposits[i]
            &&& after.total_collected >= before.total_collected
            &&& after.depositors_count >= before.depositors_count
        }),
{
    lemma_slot_of(ctx.sol_holder.allowed_depositors@, ctx.depositor);
}

} // verus!
