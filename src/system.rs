//! The auction store and the operations that drive each auction through its lifecycle.
use vstd::prelude::*;

use crate::lifecycle::{
    after_bid, after_near_claim, after_nft_claim, bid_error, check_bid, check_claim_back_nft,
    check_claim_near, check_claim_nft, claim_back_nft_error, claim_near_error, claim_nft_error,
    compute_refund, refund_of,
};
use crate::types::{AssetRelease, Auction, AuctionError, CallContext, FeeSchedule, Payment};

verus! {

/// All auctions ever created, indexed by their identifier, and the assets they hold in escrow.
pub struct AuctionSystem {
    /// The account that set the system up.
    pub owner: String,
    pub fees: FeeSchedule,
    /// The identifier the next auction receives.
    pub total_auctions: u128,
    /// The auction with identifier `i` is at position `i`.
    pub auction_by_id: Vec<Auction>,
    /// The assets currently held in escrow, each once.
    pub auctioned_tokens: Vec<String>,
}

/// Nanoseconds in a second.
pub const NANOS_PER_SEC: u64 = 1_000_000_000;

/// The end of a window that opens at `now` (nanoseconds) and lasts `duration_secs` seconds.
pub open spec fn window_end(now: u64, duration_secs: u64) -> int {
    now + duration_secs * NANOS_PER_SEC
}

/// The end of the window, if it is a representable timestamp.
pub fn compute_window_end(now: u64, duration_secs: u64) -> (r: Option<u64>)
    ensures
        match r {
            Some(e) => e == window_end(now, duration_secs),
            None => window_end(now, duration_secs) > u64::MAX,
        },
{
    match duration_secs.checked_mul(NANOS_PER_SEC) {
        Some(d) => now.checked_add(d),
        None => None,
    }
}

impl AuctionSystem {
    /// The auction with identifier `id`, if one was created.
    pub open spec fn auction_at(self, id: u128) -> Option<Auction> {
        if id < self.auction_by_id.len() {
            Some(self.auction_by_id@[id as int])
        } else {
            None
        }
    }

    /// Whether asset `t` is in the escrowed set.
    pub open spec fn is_escrowed(self, t: Seq<char>) -> bool {
        exists|j: int| 0 <= j < self.auctioned_tokens.len() && #[trigger] self.auctioned_tokens@[j]@ == t
    }

    /// The escrowed set.
    pub open spec fn escrowed_tokens(self) -> Set<Seq<char>> {
        Set::new(|t: Seq<char>| self.is_escrowed(t))
    }

    /// Whether auction `i` still holds its asset.
    pub open spec fn holds_asset(self, i: int) -> bool {
        0 <= i < self.auction_by_id.len() && !self.auction_by_id@[i].is_nft_claimed
    }

    /// The assets of the auctions that have not released theirs.
    pub open spec fn open_tokens(self) -> Set<Seq<char>> {
        Set::new(|t: Seq<char>| exists|i: int| #[trigger] self.holds_asset(i) && self.auction_by_id@[i].auction_token@ == t)
    }

    /// The store's invariant.
    pub open spec fn wf(self) -> bool {
        &&& self.total_auctions == self.auction_by_id.len()
        &&& forall|i: int| 0 <= i < self.auction_by_id.len() ==> (#[trigger] self.auction_by_id@[i]).auction_id == i
            && self.auction_by_id@[i].wf()
        &&& self.escrowed_tokens() == self.open_tokens()
        &&& forall|j: int, l: int| 0 <= j < l < self.auctioned_tokens.len()
            ==> (#[trigger] self.auctioned_tokens@[j])@ != (#[trigger] self.auctioned_tokens@[l])@
        &&& forall|i: int, k: int| #[trigger] self.holds_asset(i) && #[trigger] self.holds_asset(k) && i != k
            ==> self.auction_by_id@[i].auction_token@ != self.auction_by_id@[k].auction_token@
    }

    /// `other` differs from `self` at most in the auction records.
    pub open spec fn same_except_auctions(self, other: AuctionSystem) -> bool {
        &&& other.owner == self.owner
        &&& other.fees == self.fees
        &&& other.total_auctions == self.total_auctions
        &&& other.auction_by_id.len() == self.auction_by_id.len()
    }

    /// An empty system set up by `owner` with the given fees.
    pub fn new(owner: String, fees: FeeSchedule) -> (r: AuctionSystem)
        ensures
            r.wf(),
            r.owner == owner,
            r.fees == fees,
            r.total_auctions == 0,
            r.auction_by_id@.len() == 0,
            r.escrowed_tokens() == Set::<Seq<char>>::empty(),
    {
        let r = AuctionSystem {
            owner,
            fees,
            total_auctions: 0,
            auction_by_id: Vec::new(),
            auctioned_tokens: Vec::new(),
        };
        assert(r.escrowed_tokens() =~= Set::<Seq<char>>::empty());
        assert(r.open_tokens() =~= Set::<Seq<char>>::empty());
        r
    }

    /// Position of auction `id` in the store, if it exists.
    fn index_of(&self, id: u128) -> (r: Option<usize>)
        ensures
            match r {
                Some(i) => i == id && id < self.auction_by_id.len(),
                None => id >= self.auction_by_id.len(),
            },
    {
        if id < self.auction_by_id.len() as u128 {
            Some(id as usize)
        } else {
            None
        }
    }

    /// The auction with identifier `auction_id`.
    pub fn get_auction(&self, auction_id: u128) -> (r: Result<Auction, AuctionError>)
        ensures
            r == match self.auction_at(auction_id) {
                Some(a) => Ok(a),
                None => Err::<Auction, AuctionError>(AuctionError::NotFound),
            },
    {
        match self.index_of(auction_id) {
            Some(i) => Ok(self.auction_by_id[i].duplicate()),
            None => Err(AuctionError::NotFound),
        }
    }

    /// Whether asset `token` is held in escrow.
    pub fn contains_escrowed(&self, token: &String) -> (r: bool)
        ensures
            r == self.is_escrowed(token@),
    {
        self.find_escrowed(token).is_some()
    }

    /// Position of `token` in the escrowed set.
    fn find_escrowed(&self, token: &String) -> (r: Option<usize>)
        ensures
            match r {
                Some(j) => j < self.auctioned_tokens.len() && self.auctioned_tokens@[j as int]@ == token@,
                None => !self.is_escrowed(token@),
            },
    {
        let mut j: usize = 0;
        while j < self.auctioned_tokens.len()
            invariant
                j <= self.auctioned_tokens.len(),
                forall|l: int| 0 <= l < j ==> self.auctioned_tokens@[l]@ != token@,
            decreases self.auctioned_tokens.len() - j,
        {
            if self.auctioned_tokens[j].eq(token) {
                return Some(j);
            }
            j = j + 1;
        }
        None
    }

    /// A change that leaves every record's asset and escrow state, and the escrowed set,
    /// as they were keeps the invariant.
    proof fn lemma_records_rewritten(s: AuctionSystem, t: AuctionSystem)
        requires
            s.wf(),
            s.same_except_auctions(t),
            t.auctioned_tokens@ == s.auctioned_tokens@,
            forall|i: int| 0 <= i < t.auction_by_id.len() ==> {
                &&& (#[trigger] t.auction_by_id@[i]).auction_token == s.auction_by_id@[i].auction_token
                &&& t.auction_by_id@[i].is_nft_claimed == s.auction_by_id@[i].is_nft_claimed
                &&& t.auction_by_id@[i].auction_id == s.auction_by_id@[i].auction_id
                &&& t.auction_by_id@[i].wf()
            },
        ensures
            t.wf(),
            t.escrowed_tokens() == s.escrowed_tokens(),
    {
        assert forall|i: int| #[trigger] t.holds_asset(i) == s.holds_asset(i) by {
            if 0 <= i < t.auction_by_id.len() {
                assert(t.auction_by_id@[i].is_nft_claimed == s.auction_by_id@[i].is_nft_claimed);
            }
        }
        assert(t.escrowed_tokens() =~= s.escrowed_tokens());
        assert forall|x: Seq<char>| t.open_tokens().contains(x) == s.open_tokens().contains(x) by {
            if t.open_tokens().contains(x) {
                let i = choose|i: int| #[trigger] t.holds_asset(i) && t.auction_by_id@[i].auction_token@ == x;
                assert(s.holds_asset(i) && s.auction_by_id@[i].auction_token@ == x);
            }
            if s.open_tokens().contains(x) {
                let i = choose|i: int| #[trigger] s.holds_asset(i) && s.auction_by_id@[i].auction_token@ == x;
                assert(t.auction_by_id@[i].auction_token == s.auction_by_id@[i].auction_token);
                assert(t.holds_asset(i) && t.auction_by_id@[i].auction_token@ == x);
            }
        }
        assert(t.open_tokens() =~= s.open_tokens());
        assert forall|i: int, k: int| #[trigger] t.holds_asset(i) && #[trigger] t.holds_asset(k) && i != k
            implies t.auction_by_id@[i].auction_token@ != t.auction_by_id@[k].auction_token@ by {
            assert(s.holds_asset(i) && s.holds_asset(k));
            assert(t.auction_by_id@[i].auction_token == s.auction_by_id@[i].auction_token);
            assert(t.auction_by_id@[k].auction_token == s.auction_by_id@[k].auction_token);
        }
    }

    /// Places a bid on auction `auction_id` for the caller, at the attached value.
    /// On success the caller leads, and the refund owed to the leader it displaced (their
    /// bid less the enrollment fee) is returned for the host to pay out.
    pub fn bid(&mut self, ctx: &CallContext, auction_id: u128) -> (r: Result<Option<Payment>, AuctionError>)
        requires
            old(self).wf(),
        ensures
            final(self).wf(),
            match old(self).auction_at(auction_id) {
                None => r == Err::<Option<Payment>, AuctionError>(AuctionError::NotFound) && *final(self) == *old(self),
                Some(a) => match bid_error(a, *ctx) {
                    Some(e) => r == Err::<Option<Payment>, AuctionError>(e) && *final(self) == *old(self),
                    None => {
                        &&& r == Ok::<Option<Payment>, AuctionError>(refund_of(a, old(self).fees.enroll_fee))
                        &&& old(self).same_except_auctions(*final(self))
                        &&& final(self).auction_by_id@ == old(self).auction_by_id@.update(auction_id as int, after_bid(a, *ctx))
                        &&& final(self).auctioned_tokens@ == old(self).auctioned_tokens@
                    },
                },
            },
    {
        let i = match self.index_of(auction_id) {
            Some(i) => i,
            None => return Err(AuctionError::NotFound),
        };
        let a = self.auction_by_id[i].duplicate();
        if let Some(e) = check_bid(&a, ctx) {
            return Err(e);
        }
        let refund = match &a.winner {
            Some(w) => Some(Payment { to: w.clone(), amount: compute_refund(a.current_price, self.fees.enroll_fee) }),
            None => None,
        };
        let updated = Auction { winner: Some(ctx.caller.clone()), current_price: ctx.attached_deposit, ..a };
        let ghost s = *self;
        self.auction_by_id.set(i, updated);
        proof {
            Self::lemma_records_rewritten(s, *self);
        }
        Ok(refund)
    }

    /// Releasing the asset of auction `i`, whose entry in the escrowed set is at `j`, keeps
    /// the invariant and takes exactly that asset out of the set.
    proof fn lemma_asset_released(s: AuctionSystem, t: AuctionSystem, i: int, j: int)
        requires
            s.wf(),
            s.holds_asset(i),
            0 <= j < s.auctioned_tokens.len(),
            s.auctioned_tokens@[j]@ == s.auction_by_id@[i].auction_token@,
            s.same_except_auctions(t),
            t.auction_by_id@ == s.auction_by_id@.update(i, after_nft_claim(s.auction_by_id@[i])),
            t.auctioned_tokens@ == s.auctioned_tokens@.remove(j),
        ensures
            t.wf(),
            t.escrowed_tokens() == s.escrowed_tokens().remove(s.auction_by_id@[i].auction_token@),
    {
        let tok = s.auction_by_id@[i].auction_token@;
        assert forall|k: int| #[trigger] t.holds_asset(k) == (s.holds_asset(k) && k != i) by {
            if 0 <= k < t.auction_by_id.len() && k != i {
                assert(t.auction_by_id@[k] == s.auction_by_id@[k]);
            }
        }
        assert forall|x: Seq<char>| t.escrowed_tokens().contains(x) == (s.escrowed_tokens().contains(x) && x != tok) by {
            if t.is_escrowed(x) {
                let l = choose|l: int| 0 <= l < t.auctioned_tokens.len() && #[trigger] t.auctioned_tokens@[l]@ == x;
                let m = if l < j { l } else { l + 1 };
                assert(s.auctioned_tokens@[m]@ == x);
                assert(m != j);
                assert(s.is_escrowed(x));
            }
            if s.is_escrowed(x) && x != tok {
                let m = choose|m: int| 0 <= m < s.auctioned_tokens.len() && #[trigger] s.auctioned_tokens@[m]@ == x;
                assert(m != j);
                let l = if m < j { m } else { m - 1 };
                assert(t.auctioned_tokens@[l]@ == x);
            }
        }
        assert(t.escrowed_tokens() =~= s.escrowed_tokens().remove(tok));
        assert forall|x: Seq<char>| t.open_tokens().contains(x) == (s.open_tokens().contains(x) && x != tok) by {
            if t.open_tokens().contains(x) {
                let k = choose|k: int| #[trigger] t.holds_asset(k) && t.auction_by_id@[k].auction_token@ == x;
                assert(s.holds_asset(k) && k != i);
                assert(t.auction_by_id@[k] == s.auction_by_id@[k]);
                assert(s.holds_asset(i));
            }
            if s.open_tokens().contains(x) && x != tok {
                let k = choose|k: int| #[trigger] s.holds_asset(k) && s.auction_by_id@[k].auction_token@ == x;
                assert(k != i);
                assert(t.auction_by_id@[k] == s.auction_by_id@[k]);
                assert(t.holds_asset(k));
            }
        }
        assert(t.open_tokens() =~= s.open_tokens().remove(tok));
        assert forall|a: int, b: int| 0 <= a < b < t.auctioned_tokens.len()
            implies (#[trigger] t.auctioned_tokens@[a])@ != (#[trigger] t.auctioned_tokens@[b])@ by {
            let a2 = if a < j { a } else { a + 1 };
            let b2 = if b < j { b } else { b + 1 };
            assert(s.auctioned_tokens@[a2] == t.auctioned_tokens@[a]);
            assert(s.auctioned_tokens@[b2] == t.auctioned_tokens@[b]);
        }
        assert forall|a: int, b: int| #[trigger] t.holds_asset(a) && #[trigger] t.holds_asset(b) && a != b
            implies t.auction_by_id@[a].auction_token@ != t.auction_by_id@[b].auction_token@ by {
            assert(s.holds_asset(a) && s.holds_asset(b));
            assert(t.auction_by_id@[a] == s.auction_by_id@[a]);
            assert(t.auction_by_id@[b] == s.auction_by_id@[b]);
        }
        assert forall|k: int| 0 <= k < t.auction_by_id.len() implies (#[trigger] t.auction_by_id@[k]).auction_id == k
            && t.auction_by_id@[k].wf() by {
            assert(s.auction_by_id@[k].wf());
        }
    }

    /// Takes the escrowed asset of auction `i` out of the escrowed set and marks it released.
    fn release_asset(&mut self, i: usize)
        requires
            old(self).wf(),
            old(self).holds_asset(i as int),
        ensures
            final(self).wf(),
            old(self).same_except_auctions(*final(self)),
            final(self).auction_by_id@ == old(self).auction_by_id@.update(i as int, after_nft_claim(old(self).auction_by_id@[i as int])),
            final(self).escrowed_tokens() == old(self).escrowed_tokens().remove(old(self).auction_by_id@[i as int].auction_token@),
    {
        let ghost s = *self;
        let j = match self.find_escrowed(&self.auction_by_id[i].auction_token) {
            Some(j) => j,
            None => {
                // An auction that holds its asset has it in the escrowed set.
                proof {
                    let tok = s.auction_by_id@[i as int].auction_token@;
                    assert(s.open_tokens().contains(tok));
                    assert(s.escrowed_tokens().contains(tok));
                }
                return;
            },
        };
        self.auctioned_tokens.remove(j);
        let a = self.auction_by_id[i].duplicate();
        self.auction_by_id.set(i, Auction { is_nft_claimed: true, ..a });
        proof {
            Self::lemma_asset_released(s, *self, i as int, j as int);
        }
    }

    /// The winner collects the asset of auction `auction_id` once bidding has closed.
    /// Returns the release the host performs.
    pub fn claim_nft(&mut self, ctx: &CallContext, auction_id: u128) -> (r: Result<AssetRelease, AuctionError>)
        requires
            old(self).wf(),
        ensures
            final(self).wf(),
            match old(self).auction_at(auction_id) {
                None => r == Err::<AssetRelease, AuctionError>(AuctionError::NotFound) && *final(self) == *old(self),
                Some(a) => match claim_nft_error(a, *ctx) {
                    Some(e) => r == Err::<AssetRelease, AuctionError>(e) && *final(self) == *old(self),
                    None => {
                        &&& r == Ok::<AssetRelease, AuctionError>(AssetRelease { token: a.auction_token, to: a.winner.unwrap() })
                        &&& old(self).same_except_auctions(*final(self))
                        &&& final(self).auction_by_id@ == old(self).auction_by_id@.update(auction_id as int, after_nft_claim(a))
                        &&& final(self).escrowed_tokens() == old(self).escrowed_tokens().remove(a.auction_token@)
                    },
                },
            },
    {
        let i = match self.index_of(auction_id) {
            Some(i) => i,
            None => return Err(AuctionError::NotFound),
        };
        if let Some(e) = check_claim_nft(&self.auction_by_id[i], ctx) {
            return Err(e);
        }
        let release = AssetRelease {
            token: self.auction_by_id[i].auction_token.clone(),
            to: match &self.auction_by_id[i].winner {
                Some(w) => w.clone(),
                // The check above found the caller to be the winner, so there is one.
                None => ctx.caller.clone(),
            },
        };
        self.release_asset(i);
        Ok(release)
    }

    /// The owner takes back the asset of auction `auction_id`, which closed without a bid.
    /// Returns the release the host performs.
    pub fn claim_back_nft(&mut self, ctx: &CallContext, auction_id: u128) -> (r: Result<AssetRelease, AuctionError>)
        requires
            old(self).wf(),
        ensures
            final(self).wf(),
            match old(self).auction_at(auction_id) {
                None => r == Err::<AssetRelease, AuctionError>(AuctionError::NotFound) && *final(self) == *old(self),
                Some(a) => match claim_back_nft_error(a, *ctx) {
                    Some(e) => r == Err::<AssetRelease, AuctionError>(e) && *final(self) == *old(self),
                    None => {
                        &&& r == Ok::<AssetRelease, AuctionError>(AssetRelease { token: a.auction_token, to: a.owner })
                        &&& old(self).same_except_auctions(*final(self))
                        &&& final(self).auction_by_id@ == old(self).auction_by_id@.update(auction_id as int, after_nft_claim(a))
                        &&& final(self).escrowed_tokens() == old(self).escrowed_tokens().remove(a.auction_token@)
                    },
                },
            },
    {
        let i = match self.index_of(auction_id) {
            Some(i) => i,
            None => return Err(AuctionError::NotFound),
        };
        if let Some(e) = check_claim_back_nft(&self.auction_by_id[i], ctx) {
            return Err(e);
        }
        let release = AssetRelease {
            token: self.auction_by_id[i].auction_token.clone(),
            to: self.auction_by_id[i].owner.clone(),
        };
        self.release_asset(i);
        Ok(release)
    }

    /// The owner collects the winning bid of auction `auction_id` once bidding has closed.
    /// Returns the payment the host performs.
    pub fn claim_near(&mut self, ctx: &CallContext, auction_id: u128) -> (r: Result<Payment, AuctionError>)
        requires
            old(self).wf(),
        ensures
            final(self).wf(),
            match old(self).auction_at(auction_id) {
                None => r == Err::<Payment, AuctionError>(AuctionError::NotFound) && *final(self) == *old(self),
                Some(a) => match claim_near_error(a, *ctx) {
                    Some(e) => r == Err::<Payment, AuctionError>(e) && *final(self) == *old(self),
                    None => {
                        &&& r == Ok::<Payment, AuctionError>(Payment { to: a.owner, amount: a.current_price })
                        &&& old(self).same_except_auctions(*final(self))
                        &&& final(self).auction_by_id@ == old(self).auction_by_id@.update(auction_id as int, after_near_claim(a))
                        &&& final(self).auctioned_tokens@ == old(self).auctioned_tokens@
                    },
                },
            },
    {
        let i = match self.index_of(auction_id) {
            Some(i) => i,
            None => return Err(AuctionError::NotFound),
        };
        let a = self.auction_by_id[i].duplicate();
        if let Some(e) = check_claim_near(&a, ctx) {
            return Err(e);
        }
        let payment = Payment { to: a.owner.clone(), amount: a.current_price };
        let ghost s = *self;
        self.auction_by_id.set(i, Auction { is_near_claimed: true, ..a });
        proof {
            Self::lemma_records_rewritten(s, *self);
        }
        Ok(payment)
    }

    /// Why creating an auction of asset `art_id` is refused, if it is: the caller must own the
    /// asset, the asset must not be in escrow already, the attached payment must be the
    /// creation fee, and the window must end at a representable time.
    pub open spec fn create_auction_error(
        self,
        ctx: CallContext,
        asset_owner: Option<String>,
        art_id: String,
        duration_secs: u64,
    ) -> Option<AuctionError> {
        if !(asset_owner is Some && asset_owner.unwrap()@ == ctx.caller@) {
            Some(AuctionError::Unauthorized)
        } else if self.is_escrowed(art_id@) {
            Some(AuctionError::AlreadyAuctioned)
        } else if ctx.attached_deposit != self.fees.create_auction_fee {
            Some(AuctionError::InvalidFee)
        } else if window_end(ctx.block_timestamp, duration_secs) > u64::MAX {
            Some(AuctionError::InvalidWindow)
        } else {
            None
        }
    }

    /// The record a successful creation adds: owned by the caller, open from now for
    /// `duration_secs` seconds, at the floor price, with no bid and nothing settled.
    pub open spec fn created_auction(
        self,
        ctx: CallContext,
        art_id: String,
        start_price: u128,
        duration_secs: u64,
    ) -> Auction {
        Auction {
            owner: ctx.caller,
            auction_id: self.total_auctions,
            auction_token: art_id,
            start_price,
            start_time: ctx.block_timestamp,
            end_time: window_end(ctx.block_timestamp, duration_secs) as u64,
            current_price: start_price,
            winner: None,
            is_near_claimed: false,
            is_nft_claimed: false,
        }
    }

    /// Appending a fresh auction of an asset that is not in escrow, and putting the asset in
    /// escrow, keeps the invariant.
    proof fn lemma_auction_added(s: AuctionSystem, t: AuctionSystem, na: Auction)
        requires
            s.wf(),
            !s.is_escrowed(na.auction_token@),
            !na.is_nft_claimed,
            na.auction_id == s.auction_by_id.len(),
            na.wf(),
            t.owner == s.owner,
            t.fees == s.fees,
            t.total_auctions == s.total_auctions + 1,
            t.auction_by_id@ == s.auction_by_id@.push(na),
            t.auctioned_tokens@ == s.auctioned_tokens@.push(na.auction_token),
        ensures
            t.wf(),
            t.escrowed_tokens() == s.escrowed_tokens().insert(na.auction_token@),
    {
        let tok = na.auction_token@;
        let n = s.auction_by_id.len() as int;
        assert forall|k: int| #[trigger] t.holds_asset(k) == (s.holds_asset(k) || k == n) by {
            if 0 <= k < n {
                assert(t.auction_by_id@[k] == s.auction_by_id@[k]);
            }
        }
        assert forall|x: Seq<char>| t.escrowed_tokens().contains(x) == (s.escrowed_tokens().contains(x) || x == tok) by {
            if t.is_escrowed(x) {
                let l = choose|l: int| 0 <= l < t.auctioned_tokens.len() && #[trigger] t.auctioned_tokens@[l]@ == x;
                if l < s.auctioned_tokens.len() {
                    assert(s.auctioned_tokens@[l]@ == x);
                }
            }
            if s.is_escrowed(x) {
                let m = choose|m: int| 0 <= m < s.auctioned_tokens.len() && #[trigger] s.auctioned_tokens@[m]@ == x;
                assert(t.auctioned_tokens@[m]@ == x);
            }
            if x == tok {
                assert(t.auctioned_tokens@[s.auctioned_tokens.len() as int]@ == x);
            }
        }
        assert(t.escrowed_tokens() =~= s.escrowed_tokens().insert(tok));
        assert forall|x: Seq<char>| t.open_tokens().contains(x) == (s.open_tokens().contains(x) || x == tok) by {
            if t.open_tokens().contains(x) {
                let k = choose|k: int| #[trigger] t.holds_asset(k) && t.auction_by_id@[k].auction_token@ == x;
                if k < n {
                    assert(t.auction_by_id@[k] == s.auction_by_id@[k]);
                    assert(s.holds_asset(k));
                }
            }
            if s.open_tokens().contains(x) {
                let k = choose|k: int| #[trigger] s.holds_asset(k) && s.auction_by_id@[k].auction_token@ == x;
                assert(t.auction_by_id@[k] == s.auction_by_id@[k]);
                assert(t.holds_asset(k));
            }
            if x == tok {
                assert(t.holds_asset(n));
            }
        }
        assert(t.open_tokens() =~= s.open_tokens().insert(tok));
        assert forall|a: int, b: int| 0 <= a < b < t.auctioned_tokens.len()
            implies (#[trigger] t.auctioned_tokens@[a])@ != (#[trigger] t.auctioned_tokens@[b])@ by {
            if b == s.auctioned_tokens.len() {
                assert(s.auctioned_tokens@[a] == t.auctioned_tokens@[a]);
            }
        }
        assert forall|a: int, b: int| #[trigger] t.holds_asset(a) && #[trigger] t.holds_asset(b) && a != b
            implies t.auction_by_id@[a].auction_token@ != t.auction_by_id@[b].auction_token@ by {
            if a == n {
                assert(t.auction_by_id@[b] == s.auction_by_id@[b]);
                assert(s.holds_asset(b));
                assert(s.open_tokens().contains(s.auction_by_id@[b].auction_token@));
            } else if b == n {
                assert(t.auction_by_id@[a] == s.auction_by_id@[a]);
                assert(s.holds_asset(a));
                assert(s.open_tokens().contains(s.auction_by_id@[a].auction_token@));
            } else {
                assert(t.auction_by_id@[a] == s.auction_by_id@[a]);
                assert(t.auction_by_id@[b] == s.auction_by_id@[b]);
            }
        }
        assert forall|k: int| 0 <= k < t.auction_by_id.len() implies (#[trigger] t.auction_by_id@[k]).auction_id == k
            && t.auction_by_id@[k].wf() by {
            if k < n {
                assert(t.auction_by_id@[k] == s.auction_by_id@[k]);
            }
        }
    }

    /// Puts asset `art_id` up for auction for `duration_secs` seconds from now, at floor
    /// `start_price`. `asset_owner` is the asset's current owner in the registry. On success
    /// the new record is returned and the asset is in escrow; the host then moves the asset
    /// into the system's custody.
    pub fn create_auction(
        &mut self,
        ctx: &CallContext,
        asset_owner: Option<String>,
        art_id: String,
        start_price: u128,
        duration_secs: u64,
    ) -> (r: Result<Auction, AuctionError>)
        requires
            old(self).wf(),
        ensures
            final(self).wf(),
            match old(self).create_auction_error(*ctx, asset_owner, art_id, duration_secs) {
                Some(e) => r == Err::<Auction, AuctionError>(e) && *final(self) == *old(self),
                None => {
                    let na = old(self).created_auction(*ctx, art_id, start_price, duration_secs);
                    &&& r == Ok::<Auction, AuctionError>(na)
                    &&& final(self).owner == old(self).owner
                    &&& final(self).fees == old(self).fees
                    &&& final(self).total_auctions == old(self).total_auctions + 1
                    &&& final(self).auction_by_id@ == old(self).auction_by_id@.push(na)
                    &&& final(self).escrowed_tokens() == old(self).escrowed_tokens().insert(art_id@)
                },
            },
    {
        let owns = match &asset_owner {
            Some(o) => o.eq(&ctx.caller),
            None => false,
        };
        if !owns {
            return Err(AuctionError::Unauthorized);
        }
        if self.contains_escrowed(&art_id) {
            return Err(AuctionError::AlreadyAuctioned);
        }
        if ctx.attached_deposit != self.fees.create_auction_fee {
            return Err(AuctionError::InvalidFee);
        }
        let end_time = match compute_window_end(ctx.block_timestamp, duration_secs) {
            Some(e) => e,
            None => return Err(AuctionError::InvalidWindow),
        };
        let auction = Auction {
            owner: ctx.caller.clone(),
            auction_id: self.total_auctions,
            auction_token: art_id.clone(),
            start_price,
            start_time: ctx.block_timestamp,
            end_time,
            current_price: start_price,
            winner: None,
            is_near_claimed: false,
            is_nft_claimed: false,
        };
        let ghost s = *self;
        self.auction_by_id.push(auction.duplicate());
        self.auctioned_tokens.push(art_id);
        self.total_auctions = self.total_auctions + 1;
        proof {
            Self::lemma_auction_added(s, *self, auction);
        }
        Ok(auction)
    }

    /// Checks the deposit attached to a request to mint a new asset.
    pub fn mint(&self, ctx: &CallContext) -> (r: Result<(), AuctionError>)
        ensures
            r == if ctx.attached_deposit == self.fees.mint_fee {
                Ok::<(), AuctionError>(())
            } else {
                Err(AuctionError::InvalidFee)
            },
    {
        if ctx.attached_deposit == self.fees.mint_fee {
            Ok(())
        } else {
            Err(AuctionError::InvalidFee)
        }
    }
}

} // verus!
