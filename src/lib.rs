//! An escrow auction for unique digital assets: an owner locks an asset in custody, bidders
//! outbid each other inside a time window, and after the close the winner collects the asset
//! and the owner the proceeds. The host platform supplies the caller, the attached deposit and
//! the time of each call, and performs the payments and asset releases that operations return.
pub mod types;
pub mod lifecycle;
pub mod system;
pub mod laws;

pub use system::AuctionSystem;
pub use types::{
    AssetRelease, Auction, AuctionError, AuctionPhase, CallContext, FeeSchedule, Payment, StorageKey,
};
