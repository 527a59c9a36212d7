use vstd::prelude::*;
use crate::types::{AccountAddress, Address, AuctionState, State, Transfer, BidError, FinalizeError};
use crate::auction::{bid_outcome, finalize_outcome, held_after};

verus! {

/// The contract's `balance` is exactly the highest accepted bid `top`, which
/// is zero while no bid has been accepted.
pub open spec fn holds_highest_bid(s: State, balance: int, top: int) -> bool {
    &&& balance == top
    &&& s.highest_bidder is None ==> top == 0
}

/// Accepted bids strictly increase. While the balance is the highest bid, a
/// bid is accepted only if it is above that bid, after which the balance is
/// the new bid; a bid not above it is rejected and changes nothing, and with
/// the auction open, the sender an account and the time not past the end, it
/// is rejected as too low. By induction this holds along any run of bids.
pub proof fn lemma_accepted_bids_increase(
    s: State,
    sender: Address,
    now: u64,
    before: u64,
    after: u64,
    top: int,
)
    requires
        before <= after,
        holds_highest_bid(s, before as int, top),
    ensures
        ({
            let (s2, r) = bid_outcome(s, sender, now, before, after);
            &&& r is Ok ==> after - before > top
            &&& r is Ok ==> holds_highest_bid(s2, held_after(before, after, r), after - before)
            &&& r is Err ==> s2 == s && holds_highest_bid(s2, held_after(before, after, r), top)
            &&& after - before <= top ==> r is Err
            &&& (after - before <= top && s.auction_state is Open && sender is Account && now
                <= s.end) ==> r == Err::<Option<Transfer>, BidError>(
                BidError::BidTooLow,
            )
        }),
{
}

/// Once finalized, an auction never changes again: every bid and every
/// finalization is refused as already finalized, with no transfer.
pub proof fn lemma_finalized_is_terminal(
    s: State,
    sender: Address,
    now: u64,
    before: u64,
    after: u64,
    owner: AccountAddress,
    balance: u64,
)
    requires
        !(s.auction_state is Open),
    ensures
        bid_outcome(s, sender, now, before, after) == (s, Err::<Option<Transfer>, BidError>(
            BidError::AuctionAlreadyFinalized,
        )),
        finalize_outcome(s, now, owner, balance) == (s, Err::<Option<Transfer>, FinalizeError>(
            FinalizeError::AuctionAlreadyFinalized,
        )),
{
}

/// Settlement happens at most once: a finalization that succeeds leaves the
/// auction closed, and any later finalization fails as already finalized
/// without a transfer and without touching the record.
pub proof fn lemma_single_settlement(
    s: State,
    now: u64,
    owner: AccountAddress,
    balance: u64,
    later: u64,
    owner2: AccountAddress,
    balance2: u64,
)
    requires
        finalize_outcome(s, now, owner, balance).1 is Ok,
    ensures
        s.auction_state is Open,
        !(finalize_outcome(s, now, owner, balance).0.auction_state is Open),
        finalize_outcome(finalize_outcome(s, now, owner, balance).0, later, owner2, balance2) == (
            finalize_outcome(s, now, owner, balance).0,
            Err::<Option<Transfer>, FinalizeError>(FinalizeError::AuctionAlreadyFinalized),
        ),
{
}

/// Bidding is open while `now <= end` and finalizing only once `now > end`:
/// at no instant can both succeed, and at `now == end` finalizing an open
/// auction is refused as still active.
pub proof fn lemma_time_windows_disjoint(
    s: State,
    sender: Address,
    now: u64,
    before: u64,
    after: u64,
    owner: AccountAddress,
    balance: u64,
)
    ensures
        bid_outcome(s, sender, now, before, after).1 is Ok ==> now <= s.end,
        finalize_outcome(s, now, owner, balance).1 is Ok ==> now > s.end,
        !(bid_outcome(s, sender, now, before, after).1 is Ok && finalize_outcome(
            s,
            now,
            owner,
            balance,
        ).1 is Ok),
        (s.auction_state is Open && now == s.end) ==> finalize_outcome(s, now, owner, balance).1
            == Err::<Option<Transfer>, FinalizeError>(FinalizeError::AuctionStillActive),
{
}

/// Every operation keeps the record well formed: a settled auction's winner
/// is the account that held the highest bid when it was settled.
pub proof fn lemma_well_formed_preserved(
    s: State,
    sender: Address,
    now: u64,
    before: u64,
    after: u64,
    owner: AccountAddress,
    balance: u64,
)
    requires
        s.wf(),
    ensures
        bid_outcome(s, sender, now, before, after).0.wf(),
        finalize_outcome(s, now, owner, balance).0.wf(),
        finalize_outcome(s, now, owner, balance).0.auction_state matches AuctionState::Settled(w)
            ==> s.highest_bidder == Some(w),
{
}

} // verus!
