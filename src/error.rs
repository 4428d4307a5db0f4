use vstd::prelude::*;

verus! {

/// Why a lifecycle operation was rejected. A rejected operation changes nothing.
#[derive(Clone, Copy, Debug, PartialEq, Eq, Structural)]
pub enum ErrorCode {
    /// The auction is settled, or its deadline has passed.
    AuctionEnded,
    /// Settlement was asked for before the deadline.
    AuctionNotEnded,
    /// The bid is under the reserve or does not beat the current highest bid.
    BidTooLow,
    /// The account named for the refund is not the current highest bidder.
    MismatchedRefundTarget,
    /// The asset cannot be taken into custody: the account named as the seller's is not
    /// owned by the seller, holds another mint, holds no unit, or is the custody account.
    TransferFailure,
    /// A record already exists for this auction identifier.
    AddressCollision,
    /// The duration is not positive, or the deadline does not fit the clock.
    InvalidDuration,
    /// The account named to receive the asset at settlement is the custody account,
    /// holds another mint, or is not owned by the party owed the asset.
    MismatchedRecipient,
}

} // verus!
