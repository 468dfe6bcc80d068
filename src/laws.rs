//! Properties of the auction rules that hold over every input and every sequence of calls.
use vstd::prelude::*;

use crate::lifecycle::{
    after_bid, after_near_claim, after_nft_claim, bid_error, claim_back_nft_error, claim_near_error,
    claim_nft_error, refund_of,
};
use crate::system::AuctionSystem;
use crate::types::{Auction, AuctionError, CallContext, Payment};

verus! {

/// The record after one bid call: an accepted bid applies, a refused one changes nothing.
pub open spec fn bid_step(a: Auction, c: CallContext) -> Auction {
    if bid_error(a, c) is None {
        after_bid(a, c)
    } else {
        a
    }
}

/// The record after a sequence of bid calls on it, in order.
pub open spec fn bid_run(a: Auction, calls: Seq<CallContext>) -> Auction
    decreases calls.len(),
{
    if calls.len() == 0 {
        a
    } else {
        bid_step(bid_run(a, calls.drop_last()), calls.last())
    }
}

/// Whether call `k` of the sequence is accepted.
pub open spec fn accepted_at(a: Auction, calls: Seq<CallContext>, k: int) -> bool {
    bid_error(bid_run(a, calls.take(k)), calls[k]) is None
}

proof fn lemma_run_prefix_step(a: Auction, calls: Seq<CallContext>, k: int)
    requires
        0 <= k < calls.len(),
    ensures
        bid_run(a, calls.take(k + 1)) == bid_step(bid_run(a, calls.take(k)), calls[k]),
{
    assert(calls.take(k + 1).drop_last() =~= calls.take(k));
}

/// The price of an auction never falls over a sequence of bids, and every accepted bid is
/// strictly above the price it replaced.
pub proof fn lemma_price_monotonic(a: Auction, calls: Seq<CallContext>)
    ensures
        forall|j: int, k: int| 0 <= j <= k <= calls.len()
            ==> bid_run(a, calls.take(j)).current_price <= bid_run(a, calls.take(k)).current_price,
        forall|k: int| 0 <= k < calls.len() && #[trigger] accepted_at(a, calls, k)
            ==> calls[k].attached_deposit > bid_run(a, calls.take(k)).current_price,
        bid_run(a, calls).current_price >= a.current_price,
{
    assert forall|j: int, k: int| 0 <= j <= k <= calls.len()
        implies bid_run(a, calls.take(j)).current_price <= bid_run(a, calls.take(k)).current_price by {
        lemma_price_between(a, calls, j, k);
    }
    lemma_price_between(a, calls, 0, calls.len() as int);
    assert(calls.take(0) =~= Seq::<CallContext>::empty());
    assert(calls.take(calls.len() as int) =~= calls);
}

proof fn lemma_price_between(a: Auction, calls: Seq<CallContext>, j: int, k: int)
    requires
        0 <= j <= k <= calls.len(),
    ensures
        bid_run(a, calls.take(j)).current_price <= bid_run(a, calls.take(k)).current_price,
    decreases k - j,
{
    if j < k {
        lemma_price_between(a, calls, j, k - 1);
        lemma_run_prefix_step(a, calls, k - 1);
    }
}

/// Starting from an auction without bids, the recorded winner is the caller of an accepted
/// bid equal to the final price, no accepted bid exceeds that price, and there is no winner
/// exactly when no bid was accepted.
pub proof fn lemma_winner_is_highest(a: Auction, calls: Seq<CallContext>)
    requires
        a.winner is None,
    ensures
        forall|k: int| 0 <= k < calls.len() && #[trigger] accepted_at(a, calls, k)
            ==> calls[k].attached_deposit <= bid_run(a, calls).current_price,
        bid_run(a, calls).winner is Some ==> exists|k: int| 0 <= k < calls.len() && #[trigger] accepted_at(a, calls, k)
            && bid_run(a, calls).winner == Some(calls[k].caller)
            && calls[k].attached_deposit == bid_run(a, calls).current_price,
        bid_run(a, calls).winner is None ==> forall|k: int| 0 <= k < calls.len() ==> !#[trigger] accepted_at(a, calls, k),
    decreases calls.len(),
{
    if calls.len() > 0 {
        let n = calls.len() - 1;
        let prefix = calls.drop_last();
        lemma_winner_is_highest(a, prefix);
        let p = bid_run(a, prefix);
        let c = calls.last();
        assert forall|k: int| 0 <= k < n implies #[trigger] accepted_at(a, calls, k) == accepted_at(a, prefix, k) by {
            assert(calls.take(k) =~= prefix.take(k));
        }
        assert(calls.take(n) =~= prefix);
        if bid_error(p, c) is None {
            assert(accepted_at(a, calls, n));
        } else {
            assert(!accepted_at(a, calls, n));
            if p.winner is Some {
                let k = choose|k: int| 0 <= k < prefix.len() && #[trigger] accepted_at(a, prefix, k)
                    && p.winner == Some(prefix[k].caller) && prefix[k].attached_deposit == p.current_price;
                assert(accepted_at(a, calls, k));
            }
        }
    }
}

/// An asset already in escrow is refused by auction creation; once its owner is the caller,
/// the refusal is for exactly that reason.
pub proof fn lemma_escrowed_asset_refused(
    s: AuctionSystem,
    ctx: CallContext,
    asset_owner: Option<String>,
    art_id: String,
    duration_secs: u64,
)
    requires
        s.is_escrowed(art_id@),
    ensures
        s.create_auction_error(ctx, asset_owner, art_id, duration_secs) is Some,
        asset_owner is Some && asset_owner.unwrap()@ == ctx.caller@ ==> s.create_auction_error(
            ctx,
            asset_owner,
            art_id,
            duration_secs,
        ) == Some(AuctionError::AlreadyAuctioned),
{
}

/// In a consistent store no two auctions hold the same asset, and the escrowed set is
/// exactly the set of assets that auctions still hold.
pub proof fn lemma_escrow_exclusive(s: AuctionSystem)
    requires
        s.wf(),
    ensures
        forall|i: int, k: int| #[trigger] s.holds_asset(i) && #[trigger] s.holds_asset(k) && i != k
            ==> s.auction_by_id@[i].auction_token@ != s.auction_by_id@[k].auction_token@,
        s.escrowed_tokens() == s.open_tokens(),
{
}

/// Once an auction's asset has been released, by either path, neither path releases it again.
pub proof fn lemma_asset_released_once(a: Auction, ctx: CallContext)
    ensures
        claim_nft_error(after_nft_claim(a), ctx) is Some,
        claim_back_nft_error(after_nft_claim(a), ctx) is Some,
{
}

/// A successful claim of the asset or of the proceeds cannot succeed again; repeated by the
/// same caller after the close it fails as already claimed.
pub proof fn lemma_claims_idempotent(a: Auction, first: CallContext, again: CallContext)
    ensures
        claim_nft_error(a, first) is None ==> {
            &&& claim_nft_error(after_nft_claim(a), again) is Some
            &&& again.caller@ == first.caller@ && again.block_timestamp >= a.end_time
                ==> claim_nft_error(after_nft_claim(a), again) == Some(AuctionError::AlreadyClaimed)
        },
        claim_near_error(a, first) is None ==> {
            &&& claim_near_error(after_near_claim(a), again) is Some
            &&& again.caller@ == first.caller@ && again.block_timestamp >= a.end_time
                ==> claim_near_error(after_near_claim(a), again) == Some(AuctionError::AlreadyClaimed)
        },
{
}

/// A bid that displaces a leader refunds that leader exactly their bid less the enrollment
/// fee, when their bid covers the fee.
pub proof fn lemma_refund_exact(a: Auction, ctx: CallContext, enroll_fee: u128)
    requires
        bid_error(a, ctx) is None,
        a.winner is Some,
        a.current_price >= enroll_fee,
    ensures
        refund_of(a, enroll_fee) == Some(Payment { to: a.winner.unwrap(), amount: (a.current_price - enroll_fee) as u128 }),
        after_bid(a, ctx).winner == Some(ctx.caller),
        after_bid(a, ctx).current_price == ctx.attached_deposit,
{
}

/// Bids are refused outside the open window, and every settlement is refused before the close.
pub proof fn lemma_window_enforced(a: Auction, ctx: CallContext)
    ensures
        ctx.block_timestamp < a.start_time || ctx.block_timestamp >= a.end_time
            ==> bid_error(a, ctx) == Some(AuctionError::WindowViolation),
        ctx.block_timestamp < a.end_time ==> {
            &&& claim_nft_error(a, ctx) is Some
            &&& claim_near_error(a, ctx) is Some
            &&& claim_back_nft_error(a, ctx) is Some
        },
{
}

} // verus!
