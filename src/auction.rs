use vstd::prelude::*;

use crate::key::Pubkey;

verus! {

/// The durable record of one auction.
#[derive(Clone, Copy, Debug)]
pub struct Auction {
    /// The seller; fixed at creation.
    pub authority: Pubkey,
    /// The mint of the asset being sold; fixed at creation.
    pub nft_mint: Pubkey,
    /// The winning bid so far; 0 until the first bid.
    pub highest_bid: u64,
    /// Who placed the winning bid so far.
    pub highest_bidder: Option<Pubkey>,
    /// The smallest bid that is accepted; fixed at creation.
    pub min_bid: u64,
    /// Set once, at settlement; the record never changes afterwards.
    pub ended: bool,
    /// Clock value from which no bid is accepted; fixed at creation.
    pub end_time: i64,
    /// The seed of the record's and the escrow's addresses; fixed at creation.
    pub auction_id: u64,
}

/// Where an auction stands in its lifecycle.
#[derive(Clone, Copy, Debug, PartialEq, Eq, Structural)]
pub enum AuctionState {
    /// Not settled yet; bids are taken until the deadline.
    Open,
    /// Settled with a winner: the asset went to the highest bidder.
    SettledToWinner,
    /// Settled without a bid: the asset went back to the seller.
    SettledNoBids,
}

impl Auction {
    /// The lifecycle state that the record's fields describe.
    pub open spec fn lifecycle_state(&self) -> AuctionState {
        if !self.ended {
            AuctionState::Open
        } else if self.highest_bidder is Some {
            AuctionState::SettledToWinner
        } else {
            AuctionState::SettledNoBids
        }
    }

    pub fn state(&self) -> (r: AuctionState)
        ensures
            r == self.lifecycle_state(),
    {
        if !self.ended {
            AuctionState::Open
        } else if self.highest_bidder.is_some() {
            AuctionState::SettledToWinner
        } else {
            AuctionState::SettledNoBids
        }
    }

    /// A bid is recorded exactly when a bidder is, and it clears the reserve.
    pub open spec fn wf(&self) -> bool {
        &&& (self.highest_bid == 0) == (self.highest_bidder is None)
        &&& self.highest_bidder is Some ==> self.highest_bid >= self.min_bid
    }

    /// Whether the auction is still taking bids at clock value `now`.
    pub open spec fn is_open_at(&self, now: i64) -> bool {
        !self.ended && now < self.end_time
    }
}

} // verus!
