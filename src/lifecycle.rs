use vstd::prelude::*;

use crate::auction::Auction;
use crate::error::ErrorCode;
use crate::key::Pubkey;
use crate::transfer::{Authorization, Resource, Transfer};

verus! {

/// A token account as the lifecycle reads it: its address, its mint, its owner and
/// its balance.
#[derive(Clone, Copy, Debug)]
pub struct TokenAccount {
    pub key: Pubkey,
    pub mint: Pubkey,
    pub owner: Pubkey,
    pub amount: u64,
}

/// The accounts that opening an auction reads, and the clock value it runs at.
#[derive(Clone, Copy, Debug)]
pub struct CreateAuction {
    /// The record at the auction's derived address; `None` while the address is free.
    pub auction: Option<Auction>,
    /// The seller, who signs.
    pub authority: Pubkey,
    /// The mint of the asset for sale.
    pub nft_mint: Pubkey,
    /// The seller's account that holds the asset; it must be the seller's own.
    pub seller_token_account: TokenAccount,
    /// The custody account that will hold the asset while the auction is open.
    pub auction_token_account: Pubkey,
    pub now: i64,
}

/// Why opening an auction is refused, if it is.
pub open spec fn create_error(ctx: CreateAuction, duration: i64) -> Option<ErrorCode> {
    if ctx.auction is Some {
        Some(ErrorCode::AddressCollision)
    } else if ctx.seller_token_account.mint@ != ctx.nft_mint@ || ctx.seller_token_account.owner@
        != ctx.authority@ || ctx.seller_token_account.amount < 1 || ctx.seller_token_account.key@
        == ctx.auction_token_account@ {
        Some(ErrorCode::TransferFailure)
    } else if duration <= 0 || ctx.now + duration > i64::MAX {
        Some(ErrorCode::InvalidDuration)
    } else {
        None
    }
}

/// A fresh record: no bid yet, deadline `duration` after `now`.
pub open spec fn opened(ctx: CreateAuction, auction_id: u64, min_bid: u64, duration: i64) -> Auction {
    Auction {
        authority: ctx.authority,
        nft_mint: ctx.nft_mint,
        highest_bid: 0,
        highest_bidder: None,
        min_bid,
        ended: false,
        end_time: (ctx.now + duration) as i64,
        auction_id,
    }
}

/// The movement that opening makes: the asset from the seller into custody.
pub open spec fn custody_transfers(ctx: CreateAuction) -> Seq<Transfer> {
    seq![
        Transfer {
            resource: Resource::Token,
            from: ctx.seller_token_account.key,
            to: ctx.auction_token_account,
            amount: 1,
            authorization: Authorization::Holder,
        },
    ]
}

/// Opens an auction. On success the record is written and the result lists the
/// movement to perform; on failure nothing changes.
pub fn create_auction(ctx: &mut CreateAuction, auction_id: u64, min_bid: u64, duration: i64) -> (r:
    Result<Vec<Transfer>, ErrorCode>)
    ensures
        match r {
            Ok(ts) => {
                &&& create_error(*old(ctx), duration) is None
                &&& *final(ctx) == (CreateAuction {
                    auction: Some(opened(*old(ctx), auction_id, min_bid, duration)),
                    ..*old(ctx)
                })
                &&& ts@ == custody_transfers(*old(ctx))
            },
            Err(e) => create_error(*old(ctx), duration) == Some(e) && *final(ctx) == *old(ctx),
        },
{
    if ctx.auction.is_some() {
        return Err(ErrorCode::AddressCollision);
    }
    if !(ctx.seller_token_account.mint == ctx.nft_mint) || !(ctx.seller_token_account.owner == ctx.authority)
        || ctx.seller_token_account.amount < 1 || ctx.seller_token_account.key == ctx.auction_token_account {
        return Err(ErrorCode::TransferFailure);
    }
    if duration <= 0 || ctx.now > i64::MAX - duration {
        return Err(ErrorCode::InvalidDuration);
    }
    let auction = Auction {
        authority: ctx.authority,
        nft_mint: ctx.nft_mint,
        highest_bid: 0,
        highest_bidder: None,
        min_bid,
        ended: false,
        end_time: ctx.now + duration,
        auction_id,
    };
    ctx.auction = Some(auction);
    let mut transfers: Vec<Transfer> = Vec::new();
    transfers.push(
        Transfer {
            resource: Resource::Token,
            from: ctx.seller_token_account.key,
            to: ctx.auction_token_account,
            amount: 1,
            authorization: Authorization::Holder,
        },
    );
    assert(transfers@ =~= custody_transfers(*old(ctx)));
    Ok(transfers)
}

/// The accounts that a bid reads, and the clock value it runs at.
#[derive(Clone, Copy, Debug)]
pub struct PlaceBid {
    pub auction: Auction,
    /// The new bidder, who signs and pays.
    pub bidder: Pubkey,
    /// The account to refund; must be the current highest bidder, if there is one.
    pub prev_bidder: Pubkey,
    /// The escrow that holds the winning bid.
    pub escrow: Pubkey,
    pub now: i64,
}

/// Why a bid of `amount` is refused, if it is.
pub open spec fn bid_error(ctx: PlaceBid, amount: u64) -> Option<ErrorCode> {
    if !ctx.auction.is_open_at(ctx.now) {
        Some(ErrorCode::AuctionEnded)
    } else if amount < ctx.auction.min_bid || amount <= ctx.auction.highest_bid {
        Some(ErrorCode::BidTooLow)
    } else if ctx.auction.highest_bidder is Some && ctx.prev_bidder@ != ctx.auction.highest_bidder->0@ {
        Some(ErrorCode::MismatchedRefundTarget)
    } else {
        None
    }
}

/// The record after `bidder` takes the lead with `amount`.
pub open spec fn outbid(a: Auction, bidder: Pubkey, amount: u64) -> Auction {
    Auction { highest_bid: amount, highest_bidder: Some(bidder), ..a }
}

/// The movements a bid makes: the escrow back to the previous bidder, if any, then
/// the new bid into the escrow.
pub open spec fn bid_transfers(ctx: PlaceBid, amount: u64) -> Seq<Transfer> {
    let pay = Transfer {
        resource: Resource::Lamports,
        from: ctx.bidder,
        to: ctx.escrow,
        amount,
        authorization: Authorization::Holder,
    };
    if ctx.auction.highest_bidder is Some {
        seq![
            Transfer {
                resource: Resource::Lamports,
                from: ctx.escrow,
                to: ctx.prev_bidder,
                amount: ctx.auction.highest_bid,
                authorization: Authorization::Escrow,
            },
            pay,
        ]
    } else {
        seq![pay]
    }
}

/// Places a bid of `amount`. On success the bidder leads and the result lists the
/// movements to perform; on failure nothing changes.
pub fn place_bid(ctx: &mut PlaceBid, amount: u64) -> (r: Result<Vec<Transfer>, ErrorCode>)
    ensures
        match r {
            Ok(ts) => {
                &&& bid_error(*old(ctx), amount) is None
                &&& *final(ctx) == (PlaceBid {
                    auction: outbid(old(ctx).auction, old(ctx).bidder, amount),
                    ..*old(ctx)
                })
                &&& ts@ == bid_transfers(*old(ctx), amount)
            },
            Err(e) => bid_error(*old(ctx), amount) == Some(e) && *final(ctx) == *old(ctx),
        },
{
    if ctx.auction.ended || ctx.now >= ctx.auction.end_time {
        return Err(ErrorCode::AuctionEnded);
    }
    if amount < ctx.auction.min_bid || amount <= ctx.auction.highest_bid {
        return Err(ErrorCode::BidTooLow);
    }
    let mut transfers: Vec<Transfer> = Vec::new();
    match ctx.auction.highest_bidder {
        Some(prev) => {
            if !(ctx.prev_bidder == prev) {
                return Err(ErrorCode::MismatchedRefundTarget);
            }
            transfers.push(
                Transfer {
                    resource: Resource::Lamports,
                    from: ctx.escrow,
                    to: ctx.prev_bidder,
                    amount: ctx.auction.highest_bid,
                    authorization: Authorization::Escrow,
                },
            );
        },
        None => {},
    }
    transfers.push(
        Transfer {
            resource: Resource::Lamports,
            from: ctx.bidder,
            to: ctx.escrow,
            amount,
            authorization: Authorization::Holder,
        },
    );
    ctx.auction.highest_bid = amount;
    ctx.auction.highest_bidder = Some(ctx.bidder);
    assert(transfers@ =~= bid_transfers(*old(ctx), amount));
    Ok(transfers)
}

/// The accounts that settlement reads, and the clock value it runs at. Anyone may
/// ask for settlement; the winning bid is always paid to the record's seller.
#[derive(Clone, Copy, Debug)]
pub struct EndAuction {
    pub auction: Auction,
    /// The seller's token account; receives the asset back when nobody bid.
    pub seller_token_account: TokenAccount,
    /// The custody account that holds the asset while the auction is open.
    pub auction_token_account: Pubkey,
    /// The highest bidder's token account; receives the asset when somebody bid.
    pub winner_token_account: TokenAccount,
    /// The escrow that holds the winning bid.
    pub escrow: Pubkey,
    pub now: i64,
}

/// Who is owed the asset at settlement: the highest bidder, or the seller if nobody bid.
pub open spec fn asset_owed_to(a: Auction) -> Pubkey {
    match a.highest_bidder {
        Some(bidder) => bidder,
        None => a.authority,
    }
}

/// The token account that receives the asset at settlement.
pub open spec fn asset_recipient(ctx: EndAuction) -> TokenAccount {
    if ctx.auction.highest_bidder is Some {
        ctx.winner_token_account
    } else {
        ctx.seller_token_account
    }
}

/// Why settlement is refused, if it is.
pub open spec fn end_error(ctx: EndAuction) -> Option<ErrorCode> {
    let recipient = asset_recipient(ctx);
    if ctx.auction.ended {
        Some(ErrorCode::AuctionEnded)
    } else if ctx.now < ctx.auction.end_time {
        Some(ErrorCode::AuctionNotEnded)
    } else if recipient.owner@ != asset_owed_to(ctx.auction)@ || recipient.mint@ != ctx.auction.nft_mint@
        || recipient.key@ == ctx.auction_token_account@ {
        Some(ErrorCode::MismatchedRecipient)
    } else {
        None
    }
}

/// The record after settlement: terminal, otherwise unchanged.
pub open spec fn settled(a: Auction) -> Auction {
    Auction { ended: true, ..a }
}

/// The movements settlement makes: the asset to the winner's account and the escrow
/// to the seller, or, with no bid, the asset back to the seller's account.
pub open spec fn settlement_transfers(ctx: EndAuction) -> Seq<Transfer> {
    let asset = Transfer {
        resource: Resource::Token,
        from: ctx.auction_token_account,
        to: asset_recipient(ctx).key,
        amount: 1,
        authorization: Authorization::Auction,
    };
    if ctx.auction.highest_bidder is Some {
        seq![
            asset,
            Transfer {
                resource: Resource::Lamports,
                from: ctx.escrow,
                to: ctx.auction.authority,
                amount: ctx.auction.highest_bid,
                authorization: Authorization::Escrow,
            },
        ]
    } else {
        seq![asset]
    }
}

/// Settles an auction whose deadline has passed. On success the record is terminal
/// and the result lists the movements to perform; on failure nothing changes.
pub fn end_auction(ctx: &mut EndAuction) -> (r: Result<Vec<Transfer>, ErrorCode>)
    ensures
        match r {
            Ok(ts) => {
                &&& end_error(*old(ctx)) is None
                &&& *final(ctx) == (EndAuction { auction: settled(old(ctx).auction), ..*old(ctx) })
                &&& ts@ == settlement_transfers(*old(ctx))
            },
            Err(e) => end_error(*old(ctx)) == Some(e) && *final(ctx) == *old(ctx),
        },
{
    if ctx.auction.ended {
        return Err(ErrorCode::AuctionEnded);
    }
    if ctx.now < ctx.auction.end_time {
        return Err(ErrorCode::AuctionNotEnded);
    }
    let (recipient, owed) = match ctx.auction.highest_bidder {
        Some(bidder) => (ctx.winner_token_account, bidder),
        None => (ctx.seller_token_account, ctx.auction.authority),
    };
    if !(recipient.owner == owed) || !(recipient.mint == ctx.auction.nft_mint) || recipient.key
        == ctx.auction_token_account {
        return Err(ErrorCode::MismatchedRecipient);
    }
    let highest_bid = ctx.auction.highest_bid;
    ctx.auction.ended = true;
    let mut transfers: Vec<Transfer> = Vec::new();
    transfers.push(
        Transfer {
            resource: Resource::Token,
            from: ctx.auction_token_account,
            to: recipient.key,
            amount: 1,
            authorization: Authorization::Auction,
        },
    );
    if ctx.auction.highest_bidder.is_some() {
        transfers.push(
            Transfer {
                resource: Resource::Lamports,
                from: ctx.escrow,
                to: ctx.auction.authority,
                amount: highest_bid,
                authorization: Authorization::Escrow,
            },
        );
    }
    assert(transfers@ =~= settlement_transfers(*old(ctx)));
    Ok(transfers)
}

} // verus!
