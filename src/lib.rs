//! A single-item English auction for a non-fungible asset: opening, bidding with
//! an automatic refund of the outbid party, and settlement. Each operation checks
//! its guards, updates the auction record, and lists the movements of currency
//! and asset that the ledger is to perform in the same atomic unit.
pub mod auction;
pub mod error;
pub mod key;
pub mod laws;
pub mod lifecycle;
pub mod transfer;

pub use auction::{Auction, AuctionState};
pub use error::ErrorCode;
pub use key::Pubkey;
pub use lifecycle::{create_auction, end_auction, place_bid, CreateAuction, EndAuction, PlaceBid, TokenAccount};
pub use transfer::{Authorization, Resource, Transfer};
