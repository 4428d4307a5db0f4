use vstd::prelude::*;

use crate::key::Pubkey;

verus! {

/// What a transfer moves.
#[derive(Clone, Copy, Debug, PartialEq, Eq, Structural)]
pub enum Resource {
    /// Native currency, between two wallets.
    Lamports,
    /// Units of a token, between two token accounts.
    Token,
}

/// Who authorizes a transfer out of its source account.
#[derive(Clone, Copy, Debug, PartialEq, Eq, Structural)]
pub enum Authorization {
    /// The holder of the source account signs.
    Holder,
    /// The escrow's derived authority proof signs.
    Escrow,
    /// The auction record's derived authority proof signs.
    Auction,
}

/// One movement of value that an operation asks the ledger to perform.
#[derive(Clone, Copy, Debug)]
pub struct Transfer {
    pub resource: Resource,
    pub from: Pubkey,
    pub to: Pubkey,
    pub amount: u64,
    pub authorization: Authorization,
}

/// How much of `resource` account `who` gains from one transfer (negative: loses).
pub open spec fn transfer_delta(t: Transfer, resource: Resource, who: Pubkey) -> int {
    if t.resource != resource {
        0
    } else {
        (if t.to == who { t.amount as int } else { 0 }) - (if t.from == who { t.amount as int } else { 0 })
    }
}

/// How much of `resource` account `who` gains from a whole list of transfers.
pub open spec fn net_delta(ts: Seq<Transfer>, resource: Resource, who: Pubkey) -> int
    decreases ts.len(),
{
    if ts.len() == 0 {
        0
    } else {
        net_delta(ts.drop_last(), resource, who) + transfer_delta(ts.last(), resource, who)
    }
}

/// The net gain of `who` from two transfers made in turn.
pub proof fn lemma_net_delta_pair(a: Transfer, b: Transfer, resource: Resource, who: Pubkey)
    ensures
        net_delta(seq![a, b], resource, who) == transfer_delta(a, resource, who) + transfer_delta(b, resource, who),
{
    let s = seq![a, b];
    assert(s.drop_last() =~= seq![a]);
    assert(s.last() == b);
    lemma_net_delta_single(a, resource, who);
}

/// The net gain of `who` from a single transfer.
pub proof fn lemma_net_delta_single(a: Transfer, resource: Resource, who: Pubkey)
    ensures
        net_delta(seq![a], resource, who) == transfer_delta(a, resource, who),
{
    let s = seq![a];
    assert(s.drop_last() =~= Seq::<Transfer>::empty());
    assert(s.last() == a);
    assert(net_delta(Seq::<Transfer>::empty(), resource, who) == 0);
}

} // verus!
