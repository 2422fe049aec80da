//! Identities of the parties of a round, and the lookup of a party's slot in a
//! whitelist.
//!
//! An identity is a `Pubkey`. The verifier sees such a key as an opaque value:
//! two keys are either the same value or they are not, and nothing else is
//! known of them.

use anchor_lang::prelude::Pubkey;
use vstd::prelude::*;

verus! {

/// Trusted: the key type `Pubkey`, declared so that it can stand in
/// signatures and fields. Nothing of its inside is known here.
#[verifier::external_type_specification]
#[verifier::external_body]
pub struct ExPubkey(Pubkey);

/// Trusted: `Pubkey`'s `==`. A key is a plain 32-byte value compared byte by
/// byte, so the comparison holds exactly when both keys are the same value.
#[verifier::external_body]
pub(crate) fn same_identity(a: &Pubkey, b: &Pubkey) -> (same: bool)
    ensures
        same == (*a == *b),
{
    a == b
}

/// The slot of `who` in `whitelist`: the first position that holds it, or
/// `None` where the list does not hold it at all.
pub open spec fn slot_of(whitelist: Seq<Pubkey>, who: Pubkey) -> Option<int> {
    whitelist.index_of_first(who)
}

/// A position is the slot of an identity exactly when it is the first one
/// that holds it; an identity has no slot exactly when the list lacks it.
pub proof fn lemma_slot_of(whitelist: Seq<Pubkey>, who: Pubkey)
    ensures
        forall|i: int|
            slot_of(whitelist, who) == Some(i) <==> {
                &&& 0 <= i < whitelist.len()
                &&& whitelist[i] == who
                &&& forall|j: int| 0 <= j < i ==> whitelist[j] != who
            },
        slot_of(whitelist, who) is None <==> !whitelist.contains(who),
{
    whitelist.index_of_first_ensures(who);
    assert forall|i: int|
        {
            &&& 0 <= i < whitelist.len()
            &&& whitelist[i] == who
            &&& forall|j: int| 0 <= j < i ==> whitelist[j] != who
        } implies slot_of(whitelist, who) == Some(i) by {
        assert(whitelist.contains(who));
        let first = whitelist.index_of_first(who).unwrap();
        if first < i {
            assert(whitelist[first] != who);
        }
    }
}

/// In a whitelist without duplicates every position is the slot of the
/// identity it holds. (Where an identity occurs twice, only its first
/// position is.)
pub proof fn lemma_distinct_slots_are_found(whitelist: Seq<Pubkey>, slot: int)
    requires
        whitelist.no_duplicates(),
        0 <= slot < whitelist.len(),
    ensures
        slot_of(whitelist, whitelist[slot]) == Some(slot),
{
    lemma_slot_of(whitelist, whitelist[slot]);
}

/// Looks an identity up in a whitelist, from the front.
pub fn find_slot<const N: usize>(whitelist: &[Pubkey; N], who: &Pubkey) -> (slot: Option<usize>)
    ensures
        match slot {
            Some(i) => slot_of(whitelist@, *who) == Some(i as int),
            None => slot_of(whitelist@, *who) is None,
        },
{
    let mut i: usize = 0;
    while i < N
        invariant
            i <= N,
            whitelist@.len() == N,
            forall|j: int| 0 <= j < i ==> whitelist@[j] != *who,
        decreases N - i,
    {
        if same_identity(&whitelist[i], who) {
            proof {
                lemma_slot_of(whitelist@, *who);
            }
            return Some(i);
        }
        i += 1;
    }
    proof {
        lemma_slot_of(whitelist@, *who);
    }
    None
}

/// Tells whether every identity of a whitelist occupies one slot only.
pub fn all_distinct<const N: usize>(whitelist: &[Pubkey; N]) -> (distinct: bool)
    ensures
        distinct == whitelist@.no_duplicates(),
{
    let mut i: usize = 0;
    while i < N
        invariant
            i <= N,
            whitelist@.len() == N,
            forall|a: int, b: int| 0 <= a < b < N && a < i ==> whitelist@[a] != whitelist@[b],
        decreases N - i,
    {
        let mut j: usize = i + 1;
        while j < N
            invariant
                i < j <= N,
                whitelist@.len() == N,
                forall|b: int| i < b < j ==> whitelist@[i as int] != whitelist@[b],
            decreases N - j,
        {
            if same_identity(&whitelist[i], &whitelist[j]) {
                return false;
            }
            j += 1;
        }
        i += 1;
    }
    true
}

} // verus!
