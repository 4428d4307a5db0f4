use vstd::prelude::*;

use crate::auction::{Auction, AuctionState};
use crate::error::ErrorCode;
use crate::key::Pubkey;
use crate::lifecycle::{
    asset_owed_to, asset_recipient, bid_error, bid_transfers, create_error, custody_transfers, end_error, opened, outbid, settled,
    settlement_transfers, CreateAuction, EndAuction, PlaceBid,
};
use crate::transfer::{lemma_net_delta_pair, lemma_net_delta_single, net_delta, Resource};

verus! {

/// `b` is what a successful bid makes of record `a`.
pub open spec fn bid_step(a: Auction, b: Auction) -> bool {
    exists|ctx: PlaceBid, amount: u64|
        ctx.auction == a && bid_error(ctx, amount) is None && b == #[trigger] outbid(a, ctx.bidder, amount)
}

/// A successful bid leaves a well-formed record, whatever the record was before.
pub proof fn bid_keeps_record_well_formed(ctx: PlaceBid, amount: u64)
    requires
        bid_error(ctx, amount) is None,
    ensures
        outbid(ctx.auction, ctx.bidder, amount).wf(),
{
}

/// Along any run of successful bids the highest bid strictly increases, every
/// recorded bid clears the reserve, and the reserve never changes.
pub proof fn bid_monotonicity(records: Seq<Auction>)
    requires
        forall|i: int| 0 <= i < records.len() - 1 ==> bid_step(#[trigger] records[i], records[i + 1]),
    ensures
        forall|i: int, j: int|
            0 <= i < j < records.len() ==> #[trigger] records[i].highest_bid < #[trigger] records[j].highest_bid,
        forall|i: int|
            0 < i < records.len() ==> (#[trigger] records[i]).highest_bid >= records[i].min_bid
                && records[i].min_bid == records[0].min_bid,
    decreases records.len(),
{
    if records.len() > 1 {
        let prefix = records.drop_last();
        assert forall|i: int| 0 <= i < prefix.len() - 1 implies bid_step(#[trigger] prefix[i], prefix[i + 1]) by {
            assert(prefix[i] == records[i] && prefix[i + 1] == records[i + 1]);
            assert(bid_step(records[i], records[i + 1]));
        }
        bid_monotonicity(prefix);
        let n = records.len() - 1;
        assert(bid_step(records[n - 1], records[n]));
        let (ctx, amount) = choose|ctx: PlaceBid, amount: u64|
            ctx.auction == records[n - 1] && bid_error(ctx, amount) is None && records[n] == #[trigger] outbid(
                records[n - 1],
                ctx.bidder,
                amount,
            );
        assert forall|i: int, j: int| 0 <= i < j < records.len() implies #[trigger] records[i].highest_bid
            < #[trigger] records[j].highest_bid by {
            if j < n {
                assert(prefix[i] == records[i] && prefix[j] == records[j]);
            } else if i < n - 1 {
                assert(prefix[i] == records[i] && prefix[n - 1] == records[n - 1]);
                assert(prefix[i].highest_bid < prefix[n - 1].highest_bid);
            }
        }
        assert forall|i: int| 0 < i < records.len() implies (#[trigger] records[i]).highest_bid
            >= records[i].min_bid && records[i].min_bid == records[0].min_bid by {
            if i < n {
                assert(prefix[i] == records[i] && prefix[0] == records[0]);
            } else if n > 1 {
                assert(prefix[n - 1] == records[n - 1] && prefix[0] == records[0]);
            }
        }
    }
}

/// Opening an auction moves no currency, and the record starts with no bid: the
/// escrow and the highest bid are both 0.
pub proof fn escrow_starts_empty(ctx: CreateAuction, auction_id: u64, min_bid: u64, duration: i64, who: Pubkey)
    requires
        create_error(ctx, duration) is None,
    ensures
        opened(ctx, auction_id, min_bid, duration).highest_bid == 0,
        opened(ctx, auction_id, min_bid, duration).wf(),
        net_delta(custody_transfers(ctx), Resource::Lamports, who) == 0,
{
    lemma_net_delta_single(custody_transfers(ctx)[0], Resource::Lamports, who);
}

/// While the auction is open the escrow holds exactly the highest bid: a bid takes
/// the escrow from the old highest bid to the new one.
pub proof fn escrow_tracks_highest_bid(ctx: PlaceBid, amount: u64)
    requires
        ctx.auction.wf(),
        bid_error(ctx, amount) is None,
        ctx.escrow != ctx.bidder,
        ctx.escrow != ctx.prev_bidder,
    ensures
        ctx.auction.highest_bid + net_delta(bid_transfers(ctx, amount), Resource::Lamports, ctx.escrow)
            == outbid(ctx.auction, ctx.bidder, amount).highest_bid,
{
    let ts = bid_transfers(ctx, amount);
    if ctx.auction.highest_bidder is Some {
        lemma_net_delta_pair(ts[0], ts[1], Resource::Lamports, ctx.escrow);
        assert(ts =~= seq![ts[0], ts[1]]);
    } else {
        lemma_net_delta_single(ts[0], Resource::Lamports, ctx.escrow);
        assert(ts =~= seq![ts[0]]);
    }
}

/// Settlement pays out the whole escrow: from the highest bid it drops to 0, and the
/// seller gains exactly that bid.
pub proof fn escrow_empties_at_settlement(ctx: EndAuction)
    requires
        ctx.auction.wf(),
        end_error(ctx) is None,
        ctx.escrow != ctx.auction.authority,
    ensures
        ctx.auction.highest_bid + net_delta(settlement_transfers(ctx), Resource::Lamports, ctx.escrow) == 0,
        net_delta(settlement_transfers(ctx), Resource::Lamports, ctx.auction.authority)
            == ctx.auction.highest_bid,
{
    let ts = settlement_transfers(ctx);
    if ctx.auction.highest_bidder is Some {
        lemma_net_delta_pair(ts[0], ts[1], Resource::Lamports, ctx.escrow);
        lemma_net_delta_pair(ts[0], ts[1], Resource::Lamports, ctx.auction.authority);
        assert(ts =~= seq![ts[0], ts[1]]);
    } else {
        lemma_net_delta_single(ts[0], Resource::Lamports, ctx.escrow);
        lemma_net_delta_single(ts[0], Resource::Lamports, ctx.auction.authority);
        assert(ts =~= seq![ts[0]]);
    }
}

/// When a second bidder outbids a first, the first gets back exactly their bid, the
/// second pays exactly theirs, and the escrow ends at the new bid, not the sum.
pub proof fn refund_returns_previous_bid(ctx: PlaceBid, amount: u64)
    requires
        ctx.auction.wf(),
        bid_error(ctx, amount) is None,
        ctx.auction.highest_bidder is Some,
        ctx.prev_bidder != ctx.bidder,
        ctx.escrow != ctx.bidder,
        ctx.escrow != ctx.prev_bidder,
    ensures
        net_delta(bid_transfers(ctx, amount), Resource::Lamports, ctx.prev_bidder) == ctx.auction.highest_bid,
        net_delta(bid_transfers(ctx, amount), Resource::Lamports, ctx.bidder) == -(amount as int),
        ctx.auction.highest_bid + net_delta(bid_transfers(ctx, amount), Resource::Lamports, ctx.escrow) == amount,
{
    let ts = bid_transfers(ctx, amount);
    assert(ts =~= seq![ts[0], ts[1]]);
    lemma_net_delta_pair(ts[0], ts[1], Resource::Lamports, ctx.prev_bidder);
    lemma_net_delta_pair(ts[0], ts[1], Resource::Lamports, ctx.bidder);
    lemma_net_delta_pair(ts[0], ts[1], Resource::Lamports, ctx.escrow);
}

/// Opening an auction moves the one unit of the asset from the seller into custody:
/// exactly one unit stays across seller, custody and any third account.
pub proof fn asset_conserved_at_creation(
    ctx: CreateAuction,
    duration: i64,
    other: Pubkey,
    seller_units: int,
    custody_units: int,
    other_units: int,
)
    requires
        create_error(ctx, duration) is None,
        other != ctx.seller_token_account.key,
        other != ctx.auction_token_account,
        seller_units == ctx.seller_token_account.amount,
        custody_units >= 0,
        other_units >= 0,
        seller_units + custody_units + other_units == 1,
    ensures
        seller_units + net_delta(custody_transfers(ctx), Resource::Token, ctx.seller_token_account.key) == 0,
        custody_units + net_delta(custody_transfers(ctx), Resource::Token, ctx.auction_token_account) == 1,
        other_units + net_delta(custody_transfers(ctx), Resource::Token, other) == 0,
{
    let t = custody_transfers(ctx)[0];
    lemma_net_delta_single(t, Resource::Token, ctx.seller_token_account.key);
    lemma_net_delta_single(t, Resource::Token, ctx.auction_token_account);
    lemma_net_delta_single(t, Resource::Token, other);
}

/// A bid moves no unit of the asset.
pub proof fn bid_moves_no_asset(ctx: PlaceBid, amount: u64, who: Pubkey)
    ensures
        net_delta(bid_transfers(ctx, amount), Resource::Token, who) == 0,
{
    let ts = bid_transfers(ctx, amount);
    if ctx.auction.highest_bidder is Some {
        lemma_net_delta_pair(ts[0], ts[1], Resource::Token, who);
        assert(ts =~= seq![ts[0], ts[1]]);
    } else {
        lemma_net_delta_single(ts[0], Resource::Token, who);
        assert(ts =~= seq![ts[0]]);
    }
}

/// Settlement moves the one unit of the asset out of custody into an account owned
/// by the party owed it (the highest bidder, or the seller if nobody bid), and
/// leaves every other account as it was: exactly one unit stays, never 0 nor 2.
pub proof fn asset_conserved_at_settlement(ctx: EndAuction, other: Pubkey, custody_units: int, recipient_units: int)
    requires
        end_error(ctx) is None,
        other != ctx.auction_token_account,
        other != asset_recipient(ctx).key,
        custody_units == 1,
        recipient_units == 0,
    ensures
        asset_recipient(ctx).owner@ == asset_owed_to(ctx.auction)@,
        asset_recipient(ctx).mint@ == ctx.auction.nft_mint@,
        custody_units + net_delta(settlement_transfers(ctx), Resource::Token, ctx.auction_token_account) == 0,
        recipient_units + net_delta(settlement_transfers(ctx), Resource::Token, asset_recipient(ctx).key) == 1,
        net_delta(settlement_transfers(ctx), Resource::Token, other) == 0,
{
    let ts = settlement_transfers(ctx);
    let custody = ctx.auction_token_account;
    let recipient = asset_recipient(ctx).key;
    assert(recipient != custody);
    if ctx.auction.highest_bidder is Some {
        assert(ts =~= seq![ts[0], ts[1]]);
        lemma_net_delta_pair(ts[0], ts[1], Resource::Token, custody);
        lemma_net_delta_pair(ts[0], ts[1], Resource::Token, recipient);
        lemma_net_delta_pair(ts[0], ts[1], Resource::Token, other);
    } else {
        assert(ts =~= seq![ts[0]]);
        lemma_net_delta_single(ts[0], Resource::Token, custody);
        lemma_net_delta_single(ts[0], Resource::Token, recipient);
        lemma_net_delta_single(ts[0], Resource::Token, other);
    }
}

/// Settlement takes an open record to a terminal state: settled to the winner if
/// somebody bid, settled without bids if not. A well-formed record stays well formed.
pub proof fn settlement_is_terminal(ctx: EndAuction)
    requires
        end_error(ctx) is None,
    ensures
        ctx.auction.lifecycle_state() == AuctionState::Open,
        settled(ctx.auction).ended,
        settled(ctx.auction).lifecycle_state() == if ctx.auction.highest_bidder is Some {
            AuctionState::SettledToWinner
        } else {
            AuctionState::SettledNoBids
        },
        ctx.auction.wf() ==> settled(ctx.auction).wf(),
{
}

/// Once a record is terminal, every operation on its auction is refused: bids and
/// settlement with `AuctionEnded`, opening it again with `AddressCollision`.
pub proof fn ended_rejects_all(
    a: Auction,
    bid: PlaceBid,
    amount: u64,
    end: EndAuction,
    create: CreateAuction,
    duration: i64,
)
    requires
        a.ended,
        bid.auction == a,
        end.auction == a,
        create.auction == Some(a),
    ensures
        bid_error(bid, amount) == Some(ErrorCode::AuctionEnded),
        end_error(end) == Some(ErrorCode::AuctionEnded),
        create_error(create, duration) == Some(ErrorCode::AddressCollision),
{
}

} // verus!
