//! A daily auction ledger: bids are escrowed against a calendar day, the day
//! is settled once its window has passed, and every losing bidder is refunded
//! (less a flat fee) in resumable batches.
//!
//! Every operation is a function from the records it reads to the records it
//! writes and the amounts to move, so that a refused call leaves nothing
//! behind.

pub mod identity;
pub mod state;
pub mod address;
pub mod bidding;
pub mod settlement;
pub mod refund;
pub mod ledger;

pub use crate::address::derive_receipt_address;
pub use crate::bidding::{init_config, init_day, place_bid, BidOutcome, InitConfig, InitDay, PlaceBid};
pub use crate::identity::Identity;
pub use crate::refund::{
    refund_batch, refund_entry, RefundAction, RefundBatch, RefundEntry, RefundOutcome,
    RefundProgress, RemainingAccount,
};
pub use crate::settlement::{settle_day, SettleDay, Settlement};
pub use crate::state::{
    current_day_index, is_uninitialized_auction_day, AuctionDay, BidReceipt, Config, DayPhase,
    ErrorCode,
};
