//! A whitelisted, single-round fund-collection ledger: a fixed set of parties
//! may each pay in once before a deadline, while a separate vault holds what
//! was collected.

pub mod accounting;
pub mod clock;
pub mod custody;
pub mod identity;
pub mod solana_grid_game;
pub mod valorant_performance_ledger;
