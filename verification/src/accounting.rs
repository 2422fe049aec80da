//! The arithmetic of a funding round: what a row of recorded amounts adds up
//! to, which of its slots are paid, and how both move when one unpaid slot is
//! written.

use vstd::array::spec_array_fill_for_copy_type;
use vstd::prelude::*;
use vstd::set_lib::*;

verus! {

/// The sum of all recorded amounts, as a mathematical integer.
pub open spec fn total_of(deposits: Seq<u64>) -> nat
    decreases deposits.len(),
{
    if deposits.len() == 0 {
        0
    } else {
        total_of(deposits.drop_last()) + deposits.last() as nat
    }
}

/// The slots that hold a payment. Zero is the mark of an unpaid slot, so these
/// are the positions with a non-zero amount.
pub open spec fn paid_slots(deposits: Seq<u64>) -> Set<int> {
    Set::new(|i: int| 0 <= i < deposits.len() && deposits[i] != 0)
}

/// A row of `N` slots, none of them paid.
pub open spec fn unpaid_row<const N: usize>() -> [u64; N] {
    spec_array_fill_for_copy_type::<u64, N>(0u64)
}

/// A running total never wraps: a sum that no longer fits is reported as the
/// largest representable value.
pub open spec fn saturated(sum: nat) -> u64 {
    if sum > u64::MAX {
        u64::MAX
    } else {
        sum as u64
    }
}

/// The total that a ledger reports for a row of recorded amounts.
pub open spec fn reported_total(deposits: Seq<u64>) -> u64 {
    saturated(total_of(deposits))
}

/// A row without any payment adds up to nothing.
pub proof fn lemma_total_of_unpaid(deposits: Seq<u64>)
    requires
        forall|i: int| 0 <= i < deposits.len() ==> deposits[i] == 0,
    ensures
        total_of(deposits) == 0,
    decreases deposits.len(),
{
    if deposits.len() > 0 {
        lemma_total_of_unpaid(deposits.drop_last());
    }
}

/// Writing one slot changes the sum by the difference between the new and the
/// old amount of that slot.
pub proof fn lemma_total_of_update(deposits: Seq<u64>, slot: int, amount: u64)
    requires
        0 <= slot < deposits.len(),
    ensures
        total_of(deposits.update(slot, amount)) == total_of(deposits) - deposits[slot] + amount,
    decreases deposits.len(),
{
    let written = deposits.update(slot, amount);
    if slot == deposits.len() - 1 {
        assert(written.drop_last() =~= deposits.drop_last());
    } else {
        assert(written.drop_last() =~= deposits.drop_last().update(slot, amount));
        lemma_total_of_update(deposits.drop_last(), slot, amount);
    }
}

/// There are never more paid slots than slots.
pub proof fn lemma_paid_slots_bounded(deposits: Seq<u64>)
    ensures
        paid_slots(deposits).finite(),
        paid_slots(deposits).len() <= deposits.len(),
{
    let all = set_int_range(0, deposits.len() as int);
    lemma_int_range(0, deposits.len() as int);
    lemma_len_subset(paid_slots(deposits), all);
}

/// A row without any payment has no paid slot.
pub proof fn lemma_paid_slots_unpaid(deposits: Seq<u64>)
    requires
        forall|i: int| 0 <= i < deposits.len() ==> deposits[i] == 0,
    ensures
        paid_slots(deposits) == Set::<int>::empty(),
        paid_slots(deposits).len() == 0,
{
    assert(paid_slots(deposits) =~= Set::<int>::empty());
}

/// Writing a positive amount into an unpaid slot adds exactly that slot to the
/// paid ones.
pub proof fn lemma_paid_slots_update(deposits: Seq<u64>, slot: int, amount: u64)
    requires
        0 <= slot < deposits.len(),
        deposits[slot] == 0,
        amount != 0,
    ensures
        !paid_slots(deposits).contains(slot),
        paid_slots(deposits.update(slot, amount)) == paid_slots(deposits).insert(slot),
        paid_slots(deposits.update(slot, amount)).len() == paid_slots(deposits).len() + 1,
{
    lemma_paid_slots_bounded(deposits);
    assert(paid_slots(deposits.update(slot, amount)) =~= paid_slots(deposits).insert(slot));
}

/// Extending a row by one slot adds that slot's amount to the sum, and adds
/// the slot to the paid ones if its amount is not zero.
proof fn lemma_row_extended(deposits: Seq<u64>, len: int)
    requires
        0 <= len < deposits.len(),
    ensures
        total_of(deposits.take(len + 1)) == total_of(deposits.take(len)) + deposits[len],
        deposits[len] == 0 ==> paid_slots(deposits.take(len + 1)) == paid_slots(deposits.take(len)),
        deposits[len] != 0 ==> paid_slots(deposits.take(len + 1)) == paid_slots(
            deposits.take(len),
        ).insert(len),
        !paid_slots(deposits.take(len)).contains(len),
{
    assert(deposits.take(len + 1).drop_last() =~= deposits.take(len));
    if deposits[len] == 0 {
        assert(paid_slots(deposits.take(len + 1)) =~= paid_slots(deposits.take(len)));
    } else {
        assert(paid_slots(deposits.take(len + 1)) =~= paid_slots(deposits.take(len)).insert(len));
    }
}

/// Adds a row up: the total that a ledger reports for it, and the number of
/// its paid slots.
pub fn tally<const N: usize>(deposits: &[u64; N]) -> (result: (u64, usize))
    ensures
        result.0 == reported_total(deposits@),
        result.1 == paid_slots(deposits@).len(),
{
    let mut total: u64 = 0;
    let mut paid: usize = 0;
    let mut i: usize = 0;
    proof {
        lemma_paid_slots_unpaid(deposits@.take(0));
    }
    while i < N
        invariant
            i <= N,
            deposits@.len() == N,
            total == reported_total(deposits@.take(i as int)),
            paid == paid_slots(deposits@.take(i as int)).len(),
            paid <= i,
        decreases N - i,
    {
        proof {
            lemma_row_extended(deposits@, i as int);
            lemma_paid_slots_bounded(deposits@.take(i as int));
        }
        total = total.saturating_add(deposits[i]);
        if deposits[i] != 0 {
            paid += 1;
        }
        i += 1;
    }
    assert(deposits@.take(N as int) =~= deposits@);
    (total, paid)
}

} // verus!
