//! A bounty-escrow registry: bounties that hold an escrowed reward and move
//! through a fixed lifecycle driven by their creator and a solver.

mod board;
mod laws;
mod types;

pub use board::{created_by, open_at, BountyBoard};
pub use laws::{
    lemma_create_validates_terms, lemma_escrow_released_once, lemma_ids_sequential,
    lemma_initialize_once, lemma_keeps_terms_chains, lemma_records_have_valid_terms,
    lemma_submit_reject_round_trip, lemma_terminal_closed, releases,
};
pub use types::{Address, Bounty, BountyError, BountyStatus, DataKey, Transfer};
