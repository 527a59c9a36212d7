//! A single-item English auction: the bidding and settlement rules, as a
//! pure state machine over one record.
//!
//! The host supplies the clock, the caller's identity and the contract's
//! balance as plain values; the outbound transfer that an operation owes is
//! handed back as a value for the host to carry out.

mod types;
mod auction;
mod laws;

pub use types::{AccountAddress, Address, AuctionState, State, Transfer, BidError, FinalizeError};
pub use auction::{auction_init, auction_bid, auction_finalize, bid_outcome, finalize_outcome, held_after};

pub use laws::{
    holds_highest_bid, lemma_accepted_bids_increase, lemma_finalized_is_terminal,
    lemma_single_settlement, lemma_time_windows_disjoint, lemma_well_formed_preserved,
};
