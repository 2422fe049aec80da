//! Derived addresses: how the identity of a custody record follows from the
//! identity of the record it belongs to.
//!
//! The derivation itself is `Pubkey`'s. This module gives its results names,
//! so that the rest of the library can say which address it means, and holds
//! the few calls that compute them.

use crate::identity::same_identity;
use anchor_lang::prelude::Pubkey;
use vstd::prelude::*;

verus! {

/// The most seeds that a derivation takes.
pub const MAX_SEEDS: usize = 16;

/// The most bytes that one seed of a derivation may have.
pub const MAX_SEED_LEN: usize = 32;

/// Seeds that a derivation takes: not too many, and none too long.
pub open spec fn seeds_fit(seeds: Seq<Seq<u8>>) -> bool {
    &&& seeds.len() <= MAX_SEEDS
    &&& forall|i: int| 0 <= i < seeds.len() ==> (#[trigger] seeds[i]).len() <= MAX_SEED_LEN
}

/// The 32 bytes of a key, as `Pubkey::to_bytes` gives them.
pub uninterp spec fn key_bytes(key: Pubkey) -> Seq<u8>;

/// The address that `Pubkey::create_program_address` derives from `seeds`
/// for the program `program_id`, or `None` where it derives none.
pub uninterp spec fn program_address(seeds: Seq<Seq<u8>>, program_id: Pubkey) -> Option<Pubkey>;

/// The address and the nonce that `Pubkey::try_find_program_address` finds
/// for `seeds` and the program `program_id`, or `None` where it finds none.
pub uninterp spec fn found_program_address(seeds: Seq<Seq<u8>>, program_id: Pubkey) -> Option<
    (Pubkey, u8),
>;

/// Trusted: `Pubkey::to_bytes`. A key is 32 bytes long, and its bytes depend
/// on the key alone.
#[verifier::external_body]
pub(crate) fn bytes_of(key: &Pubkey) -> (bytes: Vec<u8>)
    ensures
        bytes@ == key_bytes(*key),
        bytes@.len() == 32,
{
    key.to_bytes().to_vec()
}

/// Trusted: `Pubkey::create_program_address`. The outcome depends on the
/// seeds and the program alone. An error of the derivation becomes `None`;
/// more than `MAX_SEEDS` seeds, or a seed of more than `MAX_SEED_LEN` bytes,
/// always give one.
#[verifier::external_body]
pub(crate) fn create_program_address(seeds: &Vec<Vec<u8>>, program_id: &Pubkey) -> (address:
    Option<Pubkey>)
    ensures
        address == program_address(seeds.deep_view(), *program_id),
        !seeds_fit(seeds.deep_view()) ==> address is None,
{
    let slices: Vec<&[u8]> = seeds.iter().map(|seed| seed.as_slice()).collect();
    Pubkey::create_program_address(&slices, program_id).ok()
}

/// Trusted: `Pubkey::try_find_program_address`. The outcome depends on the
/// seeds and the program alone. Where a nonce is found, it is one with which
/// `Pubkey::create_program_address` derives the address found, from the same
/// seeds followed by the nonce as a seed of one byte. Nothing is found for
/// seeds that, with that one more seed, are too many, nor where one is too
/// long.
#[verifier::external_body]
pub(crate) fn try_find_program_address(seeds: &Vec<Vec<u8>>, program_id: &Pubkey) -> (found:
    Option<(Pubkey, u8)>)
    ensures
        found == found_program_address(seeds.deep_view(), *program_id),
        found matches Some((address, nonce)) ==> program_address(
            seeds.deep_view().push(seq![nonce]),
            *program_id,
        ) == Some(address),
        !seeds_fit(seeds.deep_view().push(seq![0u8])) ==> found is None,
{
    let slices: Vec<&[u8]> = seeds.iter().map(|seed| seed.as_slice()).collect();
    Pubkey::try_find_program_address(&slices, program_id)
}

/// The seeds of a custody record: its label, then the bytes of the record it
/// belongs to.
pub open spec fn custody_seeds(label: Seq<u8>, parent: Pubkey) -> Seq<Seq<u8>> {
    seq![label, key_bytes(parent)]
}

/// The seeds of a custody record together with its nonce.
pub open spec fn custody_seeds_with_nonce(label: Seq<u8>, parent: Pubkey, nonce: u8) -> Seq<
    Seq<u8>,
> {
    custody_seeds(label, parent).push(seq![nonce])
}

/// The address of the custody record that belongs to `parent` under `label`
/// and `nonce`.
pub open spec fn custody_address(label: Seq<u8>, parent: Pubkey, nonce: u8, program_id: Pubkey)
    -> Option<Pubkey> {
    program_address(custody_seeds_with_nonce(label, parent, nonce), program_id)
}

/// Whether a derivation has given exactly the address `candidate`.
pub fn is_address(derived: &Option<Pubkey>, candidate: &Pubkey) -> (same: bool)
    ensures
        same == (*derived == Some(*candidate)),
{
    match derived {
        Some(address) => same_identity(address, candidate),
        None => false,
    }
}

/// Derives the address of the custody record that belongs to `parent` under
/// `label` and `nonce`.
pub fn derive_custody_address(label: Vec<u8>, parent: &Pubkey, nonce: u8, program_id: &Pubkey) -> (address:
    Option<Pubkey>)
    ensures
        address == custody_address(label@, *parent, nonce, *program_id),
        label@.len() > MAX_SEED_LEN ==> address is None,
{
    let ghost wanted = custody_seeds_with_nonce(label@, *parent, nonce);
    let mut seeds: Vec<Vec<u8>> = Vec::new();
    seeds.push(label);
    seeds.push(bytes_of(parent));
    seeds.push(vec![nonce]);
    assert(seeds.deep_view() =~~= wanted);
    assert(wanted[0] == label@);
    create_program_address(&seeds, program_id)
}

/// Searches the nonce of the custody record that belongs to `parent` under
/// `label`. What it finds derives again: the nonce found gives the address
/// found.
pub fn find_custody_address(label: Vec<u8>, parent: &Pubkey, program_id: &Pubkey) -> (found:
    Option<(Pubkey, u8)>)
    ensures
        found == found_program_address(custody_seeds(label@, *parent), *program_id),
        found matches Some((address, nonce)) ==> custody_address(
            label@,
            *parent,
            nonce,
            *program_id,
        ) == Some(address),
        label@.len() > MAX_SEED_LEN ==> found is None,
{
    let ghost wanted = custody_seeds(label@, *parent);
    let mut seeds: Vec<Vec<u8>> = Vec::new();
    seeds.push(label);
    seeds.push(bytes_of(parent));
    assert(seeds.deep_view() =~~= wanted);
    assert(wanted.push(seq![0u8])[0] == label@);
    try_find_program_address(&seeds, program_id)
}

} // verus!
