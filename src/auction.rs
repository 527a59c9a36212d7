use vstd::prelude::*;
use crate::types::{AccountAddress, Address, AuctionState, State, Transfer, BidError, FinalizeError};

verus! {

/// What a bid does to the record and what it returns.
///
/// `before` and `after` are the contract's balance before and after the
/// bid's funds arrived, so the bid is `after - before`. Guards are taken in
/// order and the first that fails decides the error; a rejected bid leaves
/// the record as it was. An accepted bid makes the caller the highest bidder
/// and refunds the previous one, if any, the whole balance held before.
pub open spec fn bid_outcome(s: State, sender: Address, now: u64, before: u64, after: u64) -> (
    State,
    Result<Option<Transfer>, BidError>,
) {
    if !(s.auction_state is Open) {
        (s, Err(BidError::AuctionAlreadyFinalized))
    } else {
        match sender {
            Address::Contract(_, _) => (s, Err(BidError::OnlyAccountsMayBid)),
            Address::Account(a) => {
                if now > s.end {
                    (s, Err(BidError::BidTooLate))
                } else if after - before <= before {
                    (s, Err(BidError::BidTooLow))
                } else {
                    let refund = match s.highest_bidder {
                        Some(p) => Some(Transfer { to: p, amount: before }),
                        None => None,
                    };
                    (State { highest_bidder: Some(a), ..s }, Ok(refund))
                }
            },
        }
    }
}

/// What finalization does to the record and what it returns.
///
/// It is refused once the auction is finalized, and while `now` has not yet
/// passed the end. Otherwise, with a highest bidder the auction is settled
/// on that bidder and the whole `balance` goes to `owner`; without one it
/// closes with no sale and nothing is paid.
pub open spec fn finalize_outcome(s: State, now: u64, owner: AccountAddress, balance: u64) -> (
    State,
    Result<Option<Transfer>, FinalizeError>,
) {
    if !(s.auction_state is Open) {
        (s, Err(FinalizeError::AuctionAlreadyFinalized))
    } else if now <= s.end {
        (s, Err(FinalizeError::AuctionStillActive))
    } else {
        match s.highest_bidder {
            Some(w) => (
                State { auction_state: AuctionState::Settled(w), ..s },
                Ok(Some(Transfer { to: owner, amount: balance })),
            ),
            None => (State { auction_state: AuctionState::NoSale, ..s }, Ok(None)),
        }
    }
}

/// The balance the contract holds once a bid call is over: a rejected bid
/// is returned to its sender, and an accepted one keeps its funds less the
/// refund paid out.
pub open spec fn held_after(before: u64, after: u64, r: Result<Option<Transfer>, BidError>) -> int {
    match r {
        Ok(Some(t)) => after - t.amount,
        Ok(None) => after as int,
        Err(_) => before as int,
    }
}

/// Creates the record of a new auction for `item`, open for bids until the
/// instant `end` (in milliseconds) included.
pub fn auction_init(item: String, end: u64) -> (r: State)
    ensures
        r.auction_state == AuctionState::Open,
        r.highest_bidder.is_none(),
        r.item@ == item@,
        r.end == end,
        r.wf(),
{
    State { auction_state: AuctionState::Open, highest_bidder: None, item, end }
}

/// Places a bid of `balance_after - balance_before` from `sender` at time
/// `slot_time`; on success returns the refund owed to the previous highest
/// bidder, if there was one.
pub fn auction_bid(
    state: &mut State,
    sender: Address,
    slot_time: u64,
    balance_before: u64,
    balance_after: u64,
) -> (r: Result<Option<Transfer>, BidError>)
    requires
        balance_before <= balance_after,
    ensures
        (*final(state), r) == bid_outcome(*old(state), sender, slot_time, balance_before, balance_after),
        old(state).wf() ==> final(state).wf(),
{
    match state.auction_state {
        AuctionState::Open => {},
        _ => return Err(BidError::AuctionAlreadyFinalized),
    }
    let account = match sender {
        Address::Contract(_, _) => return Err(BidError::OnlyAccountsMayBid),
        Address::Account(a) => a,
    };
    if slot_time > state.end {
        return Err(BidError::BidTooLate);
    }
    let amount = balance_after - balance_before;
    if amount <= balance_before {
        return Err(BidError::BidTooLow);
    }
    let previous = state.highest_bidder;
    state.highest_bidder = Some(account);
    match previous {
        Some(p) => Ok(Some(Transfer { to: p, amount: balance_before })),
        None => Ok(None),
    }
}

/// Closes the auction at time `slot_time`; on a sale returns the payout of
/// the contract's whole `balance` to `owner`.
pub fn auction_finalize(state: &mut State, slot_time: u64, owner: AccountAddress, balance: u64) -> (r:
    Result<Option<Transfer>, FinalizeError>)
    ensures
        (*final(state), r) == finalize_outcome(*old(state), slot_time, owner, balance),
        old(state).wf() ==> final(state).wf(),
{
    match state.auction_state {
        AuctionState::Open => {},
        _ => return Err(FinalizeError::AuctionAlreadyFinalized),
    }
    if slot_time <= state.end {
        return Err(FinalizeError::AuctionStillActive);
    }
    match state.highest_bidder {
        Some(w) => {
            state.auction_state = AuctionState::Settled(w);
            Ok(Some(Transfer { to: owner, amount: balance }))
        },
        None => {
            state.auction_state = AuctionState::NoSale;
            Ok(None)
        },
    }
}

} // verus!
