//! The rules of a single auction record: when each operation is refused, and what an
//! accepted one does to the record.
use vstd::prelude::*;

use crate::types::{Auction, AuctionError, CallContext, Payment};

verus! {

/// Whether `who` is the recorded winner.
pub open spec fn is_winner(a: Auction, who: Seq<char>) -> bool {
    match a.winner {
        Some(w) => w@ == who,
        None => false,
    }
}

/// Why a bid is refused, if it is: the call must fall strictly inside the window and the
/// attached value must strictly exceed the current price.
pub open spec fn bid_error(a: Auction, ctx: CallContext) -> Option<AuctionError> {
    if !(a.start_time < ctx.block_timestamp && ctx.block_timestamp < a.end_time) {
        Some(AuctionError::WindowViolation)
    } else if ctx.attached_deposit <= a.current_price {
        Some(AuctionError::PriceTooLow)
    } else {
        None
    }
}

/// The record after an accepted bid: the caller leads at the attached value.
pub open spec fn after_bid(a: Auction, ctx: CallContext) -> Auction {
    Auction { winner: Some(ctx.caller), current_price: ctx.attached_deposit, ..a }
}

/// What a displaced leader gets back: their bid less the enrollment fee, never below zero.
pub open spec fn refund_amount(price: u128, enroll_fee: u128) -> u128 {
    if price >= enroll_fee {
        (price - enroll_fee) as u128
    } else {
        0
    }
}

/// The refund that an accepted bid owes to the leader it displaces, if there is one.
pub open spec fn refund_of(a: Auction, enroll_fee: u128) -> Option<Payment> {
    match a.winner {
        Some(w) => Some(Payment { to: w, amount: refund_amount(a.current_price, enroll_fee) }),
        None => None,
    }
}

/// Why the winner's claim of the asset is refused, if it is.
pub open spec fn claim_nft_error(a: Auction, ctx: CallContext) -> Option<AuctionError> {
    if ctx.block_timestamp < a.end_time {
        Some(AuctionError::WindowViolation)
    } else if !is_winner(a, ctx.caller@) {
        Some(AuctionError::Unauthorized)
    } else if a.is_nft_claimed {
        Some(AuctionError::AlreadyClaimed)
    } else {
        None
    }
}

/// Why the owner's claim of the proceeds is refused, if it is.
pub open spec fn claim_near_error(a: Auction, ctx: CallContext) -> Option<AuctionError> {
    if ctx.caller@ != a.owner@ {
        Some(AuctionError::Unauthorized)
    } else if ctx.block_timestamp < a.end_time {
        Some(AuctionError::WindowViolation)
    } else if a.is_near_claimed {
        Some(AuctionError::AlreadyClaimed)
    } else if a.winner.is_none() {
        Some(AuctionError::NoBids)
    } else {
        None
    }
}

/// Why the owner's reclaim of an unsold asset is refused, if it is.
pub open spec fn claim_back_nft_error(a: Auction, ctx: CallContext) -> Option<AuctionError> {
    if ctx.caller@ != a.owner@ {
        Some(AuctionError::Unauthorized)
    } else if ctx.block_timestamp < a.end_time {
        Some(AuctionError::WindowViolation)
    } else if a.winner.is_some() {
        Some(AuctionError::AlreadySold)
    } else if a.is_nft_claimed {
        Some(AuctionError::AlreadyClaimed)
    } else {
        None
    }
}

/// The record once its asset has left escrow.
pub open spec fn after_nft_claim(a: Auction) -> Auction {
    Auction { is_nft_claimed: true, ..a }
}

/// The record once its proceeds have been paid.
pub open spec fn after_near_claim(a: Auction) -> Auction {
    Auction { is_near_claimed: true, ..a }
}

/// Tells whether `who` is the recorded winner of `a`.
pub fn check_winner(a: &Auction, who: &String) -> (r: bool)
    ensures
        r == is_winner(*a, who@),
{
    match &a.winner {
        Some(w) => w.eq(who),
        None => false,
    }
}

/// Decides whether a bid is accepted.
pub fn check_bid(a: &Auction, ctx: &CallContext) -> (r: Option<AuctionError>)
    ensures
        r == bid_error(*a, *ctx),
{
    if !(a.start_time < ctx.block_timestamp && ctx.block_timestamp < a.end_time) {
        Some(AuctionError::WindowViolation)
    } else if ctx.attached_deposit <= a.current_price {
        Some(AuctionError::PriceTooLow)
    } else {
        None
    }
}

/// The refund owed to a displaced bidder who had bid `price`.
pub fn compute_refund(price: u128, enroll_fee: u128) -> (r: u128)
    ensures
        r == refund_amount(price, enroll_fee),
{
    if price >= enroll_fee {
        price - enroll_fee
    } else {
        0
    }
}

/// Decides whether the winner may collect the asset.
pub fn check_claim_nft(a: &Auction, ctx: &CallContext) -> (r: Option<AuctionError>)
    ensures
        r == claim_nft_error(*a, *ctx),
{
    if ctx.block_timestamp < a.end_time {
        Some(AuctionError::WindowViolation)
    } else if !check_winner(a, &ctx.caller) {
        Some(AuctionError::Unauthorized)
    } else if a.is_nft_claimed {
        Some(AuctionError::AlreadyClaimed)
    } else {
        None
    }
}

/// Decides whether the owner may collect the proceeds.
pub fn check_claim_near(a: &Auction, ctx: &CallContext) -> (r: Option<AuctionError>)
    ensures
        r == claim_near_error(*a, *ctx),
{
    if ctx.caller != a.owner {
        Some(AuctionError::Unauthorized)
    } else if ctx.block_timestamp < a.end_time {
        Some(AuctionError::WindowViolation)
    } else if a.is_near_claimed {
        Some(AuctionError::AlreadyClaimed)
    } else if a.winner.is_none() {
        Some(AuctionError::NoBids)
    } else {
        None
    }
}

/// Decides whether the owner may take an unsold asset back.
pub fn check_claim_back_nft(a: &Auction, ctx: &CallContext) -> (r: Option<AuctionError>)
    ensures
        r == claim_back_nft_error(*a, *ctx),
{
    if ctx.caller != a.owner {
        Some(AuctionError::Unauthorized)
    } else if ctx.block_timestamp < a.end_time {
        Some(AuctionError::WindowViolation)
    } else if a.winner.is_some() {
        Some(AuctionError::AlreadySold)
    } else if a.is_nft_claimed {
        Some(AuctionError::AlreadyClaimed)
    } else {
        None
    }
}

} // verus!
