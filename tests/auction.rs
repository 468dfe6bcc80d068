use nft_auction::system::compute_window_end;
use nft_auction::{
    AssetRelease, AuctionError, AuctionPhase, AuctionSystem, CallContext, FeeSchedule, Payment,
    StorageKey,
};

const SEC: u64 = 1_000_000_000;
const T0: u64 = 1_000 * SEC;

fn fees() -> FeeSchedule {
    FeeSchedule { mint_fee: 10, create_auction_fee: 1_000, enroll_fee: 5 }
}

fn ctx(caller: &str, deposit: u128, now: u64) -> CallContext {
    CallContext { caller: caller.to_string(), attached_deposit: deposit, block_timestamp: now }
}

fn system_with_auction(start_price: u128, duration_secs: u64) -> AuctionSystem {
    let mut s = AuctionSystem::new("admin".to_string(), fees());
    let r = s.create_auction(
        &ctx("alice", 1_000, T0),
        Some("alice".to_string()),
        "art-1".to_string(),
        start_price,
        duration_secs,
    );
    assert!(r.is_ok());
    s
}

#[test]
fn scenario_full_auction() {
    let mut s = system_with_auction(100, 3600);
    let a = s.get_auction(0).unwrap();
    assert_eq!(a.start_time, T0);
    assert_eq!(a.end_time, T0 + 3600 * SEC);
    assert_eq!(a.current_price, 100);

    assert_eq!(s.bid(&ctx("bob", 150, T0 + 10 * SEC), 0), Ok(None));
    let a = s.get_auction(0).unwrap();
    assert_eq!(a.current_price, 150);
    assert_eq!(a.winner, Some("bob".to_string()));

    assert_eq!(s.bid(&ctx("dave", 140, T0 + 20 * SEC), 0), Err(AuctionError::PriceTooLow));

    let refund = s.bid(&ctx("carol", 200, T0 + 30 * SEC), 0);
    assert_eq!(refund, Ok(Some(Payment { to: "bob".to_string(), amount: 145 })));

    let after = T0 + 3601 * SEC;
    let release = s.claim_nft(&ctx("carol", 0, after), 0);
    assert_eq!(release, Ok(AssetRelease { token: "art-1".to_string(), to: "carol".to_string() }));
    assert!(s.get_auction(0).unwrap().is_nft_claimed);

    let paid = s.claim_near(&ctx("alice", 0, after), 0);
    assert_eq!(paid, Ok(Payment { to: "alice".to_string(), amount: 200 }));

    assert_eq!(s.claim_back_nft(&ctx("alice", 0, after), 0), Err(AuctionError::AlreadySold));
}

#[test]
fn scenario_no_bids_reclaim() {
    let mut s = system_with_auction(100, 60);
    let after = T0 + 60 * SEC;
    let back = s.claim_back_nft(&ctx("alice", 0, after), 0);
    assert_eq!(back, Ok(AssetRelease { token: "art-1".to_string(), to: "alice".to_string() }));
    assert!(s.get_auction(0).unwrap().is_nft_claimed);
    assert!(!s.contains_escrowed(&"art-1".to_string()));
    assert_eq!(s.claim_near(&ctx("alice", 0, after), 0), Err(AuctionError::NoBids));
    assert_eq!(s.claim_back_nft(&ctx("alice", 0, after), 0), Err(AuctionError::AlreadyClaimed));
}

#[test]
fn create_requires_asset_owner() {
    let mut s = AuctionSystem::new("admin".to_string(), fees());
    let c = ctx("alice", 1_000, T0);
    assert_eq!(
        s.create_auction(&c, None, "art-1".to_string(), 1, 10),
        Err(AuctionError::Unauthorized)
    );
    assert_eq!(
        s.create_auction(&c, Some("bob".to_string()), "art-1".to_string(), 1, 10),
        Err(AuctionError::Unauthorized)
    );
    assert_eq!(s.total_auctions, 0);
}

#[test]
fn create_requires_exact_fee() {
    let mut s = AuctionSystem::new("admin".to_string(), fees());
    let r = s.create_auction(&ctx("alice", 999, T0), Some("alice".to_string()), "art-1".to_string(), 1, 10);
    assert_eq!(r, Err(AuctionError::InvalidFee));
    let r = s.create_auction(&ctx("alice", 1_001, T0), Some("alice".to_string()), "art-1".to_string(), 1, 10);
    assert_eq!(r, Err(AuctionError::InvalidFee));
    assert!(!s.contains_escrowed(&"art-1".to_string()));
}

#[test]
fn create_rejects_escrowed_asset() {
    let mut s = system_with_auction(100, 60);
    assert!(s.contains_escrowed(&"art-1".to_string()));
    let r = s.create_auction(&ctx("alice", 1_000, T0), Some("alice".to_string()), "art-1".to_string(), 5, 10);
    assert_eq!(r, Err(AuctionError::AlreadyAuctioned));
    assert_eq!(s.total_auctions, 1);
}

#[test]
fn create_rejects_window_past_time_range() {
    let mut s = AuctionSystem::new("admin".to_string(), fees());
    let r = s.create_auction(
        &ctx("alice", 1_000, u64::MAX - SEC),
        Some("alice".to_string()),
        "art-1".to_string(),
        1,
        2,
    );
    assert_eq!(r, Err(AuctionError::InvalidWindow));
    assert_eq!(compute_window_end(u64::MAX - SEC, 1), Some(u64::MAX));
    assert_eq!(compute_window_end(5, 3), Some(5 + 3 * SEC));
    assert_eq!(compute_window_end(0, u64::MAX), None);
}

#[test]
fn asset_can_be_auctioned_again_after_release() {
    let mut s = system_with_auction(100, 60);
    s.claim_back_nft(&ctx("alice", 0, T0 + 60 * SEC), 0).unwrap();
    let r = s.create_auction(
        &ctx("alice", 1_000, T0 + 100 * SEC),
        Some("alice".to_string()),
        "art-1".to_string(),
        7,
        60,
    );
    let a = r.unwrap();
    assert_eq!(a.auction_id, 1);
    assert_eq!(a.current_price, 7);
    assert_eq!(a.winner, None);
    assert!(!a.is_near_claimed && !a.is_nft_claimed);
    assert_eq!(s.total_auctions, 2);
    assert!(s.contains_escrowed(&"art-1".to_string()));
}

#[test]
fn bid_on_missing_auction() {
    let mut s = system_with_auction(100, 60);
    assert_eq!(s.bid(&ctx("bob", 500, T0 + SEC), 1), Err(AuctionError::NotFound));
    assert_eq!(s.get_auction(1), Err(AuctionError::NotFound));
}

#[test]
fn bid_window_bounds_are_strict() {
    let mut s = system_with_auction(100, 60);
    assert_eq!(s.bid(&ctx("bob", 500, T0 - 1), 0), Err(AuctionError::WindowViolation));
    assert_eq!(s.bid(&ctx("bob", 500, T0), 0), Err(AuctionError::WindowViolation));
    assert_eq!(s.bid(&ctx("bob", 500, T0 + 60 * SEC), 0), Err(AuctionError::WindowViolation));
    assert_eq!(s.bid(&ctx("bob", 500, T0 + 61 * SEC), 0), Err(AuctionError::WindowViolation));
    assert_eq!(s.bid(&ctx("bob", 500, T0 + 60 * SEC - 1), 0), Ok(None));
}

#[test]
fn bid_tie_is_rejected() {
    let mut s = system_with_auction(100, 60);
    assert_eq!(s.bid(&ctx("bob", 100, T0 + 1), 0), Err(AuctionError::PriceTooLow));
    assert_eq!(s.bid(&ctx("bob", 101, T0 + 1), 0), Ok(None));
    assert_eq!(s.bid(&ctx("carol", 101, T0 + 2), 0), Err(AuctionError::PriceTooLow));
    assert_eq!(s.get_auction(0).unwrap().winner, Some("bob".to_string()));
}

#[test]
fn refund_never_goes_below_zero() {
    let mut s = system_with_auction(2, 60);
    assert_eq!(s.bid(&ctx("bob", 3, T0 + 1), 0), Ok(None));
    let r = s.bid(&ctx("carol", 4, T0 + 2), 0);
    assert_eq!(r, Ok(Some(Payment { to: "bob".to_string(), amount: 0 })));
}

#[test]
fn prices_rise_over_a_bid_sequence() {
    let mut s = system_with_auction(10, 60);
    let bids: [(&str, u128); 6] = [("b", 20), ("c", 15), ("d", 35), ("b", 35), ("e", 50), ("c", 40)];
    let mut last = 10;
    for (k, (who, amount)) in bids.iter().enumerate() {
        let r = s.bid(&ctx(who, *amount, T0 + 1 + k as u64), 0);
        let now = s.get_auction(0).unwrap().current_price;
        assert!(now >= last);
        if r.is_ok() {
            assert!(*amount > last);
            assert_eq!(now, *amount);
        }
        last = now;
    }
    let a = s.get_auction(0).unwrap();
    assert_eq!(a.current_price, 50);
    assert_eq!(a.winner, Some("e".to_string()));
}

#[test]
fn claims_are_refused_before_the_close() {
    let mut s = system_with_auction(100, 60);
    s.bid(&ctx("bob", 150, T0 + 1), 0).unwrap();
    let before = T0 + 60 * SEC - 1;
    assert_eq!(s.claim_nft(&ctx("bob", 0, before), 0), Err(AuctionError::WindowViolation));
    assert_eq!(s.claim_near(&ctx("alice", 0, before), 0), Err(AuctionError::WindowViolation));
    assert_eq!(s.claim_back_nft(&ctx("alice", 0, before), 0), Err(AuctionError::WindowViolation));
    let at_close = T0 + 60 * SEC;
    assert!(s.claim_nft(&ctx("bob", 0, at_close), 0).is_ok());
}

#[test]
fn claims_succeed_once() {
    let mut s = system_with_auction(100, 60);
    s.bid(&ctx("bob", 150, T0 + 1), 0).unwrap();
    let after = T0 + 70 * SEC;
    assert!(s.claim_nft(&ctx("bob", 0, after), 0).is_ok());
    assert_eq!(s.claim_nft(&ctx("bob", 0, after), 0), Err(AuctionError::AlreadyClaimed));
    assert_eq!(s.claim_nft(&ctx("bob", 0, after + 1), 0), Err(AuctionError::AlreadyClaimed));
    assert!(s.claim_near(&ctx("alice", 0, after), 0).is_ok());
    assert_eq!(s.claim_near(&ctx("alice", 0, after), 0), Err(AuctionError::AlreadyClaimed));
    assert_eq!(s.claim_near(&ctx("alice", 0, after + 1), 0), Err(AuctionError::AlreadyClaimed));
    assert!(!s.contains_escrowed(&"art-1".to_string()));
}

#[test]
fn claims_check_the_caller() {
    let mut s = system_with_auction(100, 60);
    s.bid(&ctx("bob", 150, T0 + 1), 0).unwrap();
    let after = T0 + 70 * SEC;
    assert_eq!(s.claim_nft(&ctx("alice", 0, after), 0), Err(AuctionError::Unauthorized));
    assert_eq!(s.claim_near(&ctx("bob", 0, after), 0), Err(AuctionError::Unauthorized));
    assert_eq!(s.claim_back_nft(&ctx("bob", 0, after), 0), Err(AuctionError::Unauthorized));
    assert_eq!(s.claim_nft(&ctx("bob", 0, after), 1), Err(AuctionError::NotFound));
    assert_eq!(s.claim_near(&ctx("alice", 0, after), 1), Err(AuctionError::NotFound));
    assert_eq!(s.claim_back_nft(&ctx("alice", 0, after), 1), Err(AuctionError::NotFound));
}

#[test]
fn claim_nft_without_bids_is_unauthorized() {
    let mut s = system_with_auction(100, 60);
    assert_eq!(s.claim_nft(&ctx("alice", 0, T0 + 60 * SEC), 0), Err(AuctionError::Unauthorized));
}

#[test]
fn phases_follow_clock_and_flags() {
    let mut s = system_with_auction(100, 60);
    let a = s.get_auction(0).unwrap();
    assert_eq!(a.phase(T0 - 1), AuctionPhase::Scheduled);
    assert_eq!(a.phase(T0), AuctionPhase::Open);
    assert_eq!(a.phase(T0 + 60 * SEC - 1), AuctionPhase::Open);
    assert_eq!(a.phase(T0 + 60 * SEC), AuctionPhase::EndedUnclaimed);
    s.bid(&ctx("bob", 150, T0 + 1), 0).unwrap();
    let after = T0 + 60 * SEC;
    s.claim_near(&ctx("alice", 0, after), 0).unwrap();
    assert_eq!(s.get_auction(0).unwrap().phase(after), AuctionPhase::EndedPartiallyClaimed);
    s.claim_nft(&ctx("bob", 0, after), 0).unwrap();
    assert_eq!(s.get_auction(0).unwrap().phase(after), AuctionPhase::EndedSettled);
}

#[test]
fn mint_requires_exact_fee() {
    let s = AuctionSystem::new("admin".to_string(), fees());
    assert_eq!(s.mint(&ctx("alice", 10, 0)), Ok(()));
    assert_eq!(s.mint(&ctx("alice", 9, 0)), Err(AuctionError::InvalidFee));
    assert_eq!(s.mint(&ctx("alice", 11, 0)), Err(AuctionError::InvalidFee));
}

#[test]
fn standard_fees() {
    let f = FeeSchedule::standard();
    assert_eq!(f.mint_fee, 100_000_000_000_000_000_000_000);
    assert_eq!(f.create_auction_fee, 1_000_000_000_000_000_000_000_000);
    assert_eq!(f.enroll_fee, 100_000_000_000_000_000_000_000);
}

#[test]
fn storage_key_tags() {
    assert_eq!(StorageKey::NonFungibleToken.tag(), 0);
    assert_eq!(StorageKey::TokenMetadata.tag(), 1);
    assert_eq!(StorageKey::Enumeration.tag(), 2);
    assert_eq!(StorageKey::Approval.tag(), 3);
}

#[test]
fn new_system_is_empty() {
    let s = AuctionSystem::new("admin".to_string(), fees());
    assert_eq!(s.owner, "admin");
    assert_eq!(s.total_auctions, 0);
    assert!(s.auction_by_id.is_empty());
    assert!(!s.contains_escrowed(&"art-1".to_string()));
}
