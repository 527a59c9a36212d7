use vstd::prelude::*;

verus! {

/// An account: an identity derived from a key pair, given by its 32 bytes.
#[derive(Clone, Copy, Debug, PartialEq, Eq, Hash)]
pub struct AccountAddress(pub [u8; 32]);

/// Who made a call: an end-user account, or a contract instance given by
/// its index and subindex.
#[derive(Clone, Copy, Debug, PartialEq, Eq)]
pub enum Address {
    Account(AccountAddress),
    Contract(u64, u64),
}

/// Where the auction stands in its life.
#[derive(Clone, Copy, Debug, PartialEq, Eq)]
pub enum AuctionState {
    /// Still accepting bids.
    Open,
    /// Finalized with a winner: the last accepted bidder.
    Settled(AccountAddress),
    /// Finalized without any bid ever having been accepted.
    NoSale,
}

/// The auction record.
#[derive(Clone, Debug, PartialEq, Eq)]
pub struct State {
    pub auction_state: AuctionState,
    /// The account holding the highest bid, if any bid was accepted.
    pub highest_bidder: Option<AccountAddress>,
    /// What is being sold; set once at creation.
    pub item: String,
    /// The last instant, in milliseconds, at which bids are accepted.
    pub end: u64,
}

/// A transfer of `amount` micro-units of currency to the account `to`, which
/// the host must carry out for the operation to take effect.
#[derive(Clone, Copy, Debug, PartialEq, Eq)]
pub struct Transfer {
    pub to: AccountAddress,
    pub amount: u64,
}

/// Why a bid was rejected.
#[derive(Clone, Copy, Debug, PartialEq, Eq)]
pub enum BidError {
    AuctionAlreadyFinalized,
    OnlyAccountsMayBid,
    BidTooLate,
    BidTooLow,
}

/// Why finalization was rejected.
#[derive(Clone, Copy, Debug, PartialEq, Eq)]
pub enum FinalizeError {
    AuctionStillActive,
    AuctionAlreadyFinalized,
}

impl State {
    /// A settled auction names as winner the account that holds the highest bid.
    pub open spec fn wf(self) -> bool {
        self.auction_state matches AuctionState::Settled(w) ==> self.highest_bidder == Some(w)
    }
}

} // verus!
