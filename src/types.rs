use vstd::prelude::*;

verus! {

/// Storage prefixes of the asset registry's collections.
#[derive(Clone, Copy, Debug, PartialEq, Eq, Structural)]
pub enum StorageKey {
    NonFungibleToken,
    TokenMetadata,
    Enumeration,
    Approval,
}

impl StorageKey {
    /// The one-byte tag that prefixes each collection's keys: the variant's position.
    pub open spec fn spec_tag(self) -> u8 {
        match self {
            StorageKey::NonFungibleToken => 0,
            StorageKey::TokenMetadata => 1,
            StorageKey::Enumeration => 2,
            StorageKey::Approval => 3,
        }
    }

    pub fn tag(&self) -> (r: u8)
        ensures
            r == self.spec_tag(),
    {
        match self {
            StorageKey::NonFungibleToken => 0,
            StorageKey::TokenMetadata => 1,
            StorageKey::Enumeration => 2,
            StorageKey::Approval => 3,
        }
    }
}

} // verus!

verus! {

/// Why an operation on the auction system was rejected.
#[derive(Clone, Copy, Debug, PartialEq, Eq, Structural)]
pub enum AuctionError {
    /// No auction has the given identifier.
    NotFound,
    /// The caller is not the party the operation requires (asset owner, auction owner, winner).
    Unauthorized,
    /// The attached payment differs from the required fee.
    InvalidFee,
    /// The call falls outside the time window in which the operation is allowed.
    WindowViolation,
    /// The bid does not exceed the current price.
    PriceTooLow,
    /// The settlement this operation performs has already happened.
    AlreadyClaimed,
    /// The asset is already held in escrow by an open auction.
    AlreadyAuctioned,
    /// The owner tried to take the asset back although a bid was accepted.
    AlreadySold,
    /// The owner tried to collect proceeds of an auction that received no bid.
    NoBids,
    /// The requested bidding window ends past the largest representable timestamp.
    InvalidWindow,
}

/// The fixed deposits, in minor currency units, that the system asks for.
#[derive(Clone, Copy, Debug, PartialEq, Eq, Structural)]
pub struct FeeSchedule {
    pub mint_fee: u128,
    pub create_auction_fee: u128,
    /// Kept from a displaced bidder's refund.
    pub enroll_fee: u128,
}

/// Deposit for minting an asset: a tenth of a token.
pub const STANDARD_MINT_FEE: u128 = 100_000_000_000_000_000_000_000;

/// Deposit for creating an auction: one token.
pub const STANDARD_CREATE_AUCTION_FEE: u128 = 1_000_000_000_000_000_000_000_000;

/// Enrollment fee kept from each displaced bid: a tenth of a token.
pub const STANDARD_ENROLL_FEE: u128 = 100_000_000_000_000_000_000_000;

impl FeeSchedule {
    /// The schedule the system is usually deployed with.
    pub fn standard() -> (r: FeeSchedule)
        ensures
            r.mint_fee == STANDARD_MINT_FEE,
            r.create_auction_fee == STANDARD_CREATE_AUCTION_FEE,
            r.enroll_fee == STANDARD_ENROLL_FEE,
    {
        FeeSchedule {
            mint_fee: STANDARD_MINT_FEE,
            create_auction_fee: STANDARD_CREATE_AUCTION_FEE,
            enroll_fee: STANDARD_ENROLL_FEE,
        }
    }
}

/// What the host supplies with each call: who calls, what they attached, and when.
#[derive(Clone, Debug)]
pub struct CallContext {
    pub caller: String,
    pub attached_deposit: u128,
    /// Nanoseconds.
    pub block_timestamp: u64,
}

/// A transfer of currency that the host is asked to perform.
#[derive(Clone, Debug, PartialEq, Eq)]
pub struct Payment {
    pub to: String,
    pub amount: u128,
}

/// A release of an escrowed asset from the system's custody to an account.
#[derive(Clone, Debug, PartialEq, Eq)]
pub struct AssetRelease {
    pub token: String,
    pub to: String,
}

/// The stage of an auction, derived from the clock and the settlement flags.
#[derive(Clone, Copy, Debug, PartialEq, Eq, Structural)]
pub enum AuctionPhase {
    Scheduled,
    Open,
    EndedUnclaimed,
    EndedPartiallyClaimed,
    EndedSettled,
}

/// One auction: an escrowed asset, its bidding window and its settlement state.
#[derive(Clone, Debug, PartialEq, Eq)]
pub struct Auction {
    pub owner: String,
    pub auction_id: u128,
    pub auction_token: String,
    pub start_price: u128,
    /// Nanoseconds; bids are accepted strictly after it.
    pub start_time: u64,
    /// Nanoseconds; bids are accepted strictly before it, settlement from it on.
    pub end_time: u64,
    pub current_price: u128,
    pub winner: Option<String>,
    pub is_near_claimed: bool,
    pub is_nft_claimed: bool,
}


impl Auction {
    /// A record is consistent: the price never falls below the floor, it stays at the floor
    /// until a bid arrives, the window is ordered, and proceeds are only paid for a sale.
    pub open spec fn wf(self) -> bool {
        &&& self.current_price >= self.start_price
        &&& self.winner.is_none() ==> self.current_price == self.start_price
        &&& self.start_time <= self.end_time
        &&& self.is_near_claimed ==> self.winner.is_some()
    }

    pub open spec fn spec_phase(self, now: u64) -> AuctionPhase {
        if now < self.start_time {
            AuctionPhase::Scheduled
        } else if now < self.end_time {
            AuctionPhase::Open
        } else if self.is_near_claimed && self.is_nft_claimed {
            AuctionPhase::EndedSettled
        } else if self.is_near_claimed || self.is_nft_claimed {
            AuctionPhase::EndedPartiallyClaimed
        } else {
            AuctionPhase::EndedUnclaimed
        }
    }

    /// The stage the auction is in at time `now`.
    pub fn phase(&self, now: u64) -> (r: AuctionPhase)
        ensures
            r == self.spec_phase(now),
    {
        if now < self.start_time {
            AuctionPhase::Scheduled
        } else if now < self.end_time {
            AuctionPhase::Open
        } else if self.is_near_claimed && self.is_nft_claimed {
            AuctionPhase::EndedSettled
        } else if self.is_near_claimed || self.is_nft_claimed {
            AuctionPhase::EndedPartiallyClaimed
        } else {
            AuctionPhase::EndedUnclaimed
        }
    }

    /// A field-by-field copy.
    pub fn duplicate(&self) -> (r: Auction)
        ensures
            r == *self,
    {
        let winner = match &self.winner {
            Some(w) => Some(w.clone()),
            None => None,
        };
        Auction {
            owner: self.owner.clone(),
            auction_id: self.auction_id,
            auction_token: self.auction_token.clone(),
            start_price: self.start_price,
            start_time: self.start_time,
            end_time: self.end_time,
            current_price: self.current_price,
            winner,
            is_near_claimed: self.is_near_claimed,
            is_nft_claimed: self.is_nft_claimed,
        }
    }
}

} // verus!
