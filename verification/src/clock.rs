//! The host's clock.

use anchor_lang::prelude::{Clock, ProgramError};
use anchor_lang::solana_program::sysvar::Sysvar;
use vstd::prelude::*;

verus! {

/// Trusted: the error type `ProgramError`, declared so that a host's failure
/// can be handed on as it came. Nothing of its inside is known here.
#[verifier::external_type_specification]
#[verifier::external_body]
pub struct ExProgramError(ProgramError);

/// Trusted: `Clock::get`, of which the Unix timestamp is handed on. Nothing
/// is promised of it: which time it reports, and whether the clock can be
/// read at all, is the host's matter.
#[verifier::external_body]
pub(crate) fn unix_timestamp() -> (time: Result<i64, ProgramError>) {
    Clock::get().map(|clock| clock.unix_timestamp)
}

} // verus!
