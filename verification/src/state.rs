//! The records of the auction and the conditions under which a call fails.

use vstd::prelude::*;
use crate::identity::{zero_bytes, Identity};

verus! {

/// Length of one day bucket, in time units.
pub const SECONDS_PER_DAY: i64 = 86_400;

/// How many days ahead of the current one a day may be opened.
pub const INIT_DAY_MAX_AHEAD_DAYS: i64 = 2;

/// Global parameters, created once.
#[derive(Clone, Copy, Debug, PartialEq, Eq)]
pub struct Config {
    pub recipient_pubkey: Identity,
    pub loser_fee_lamports: u64,
    pub min_increment_lamports: u64,
    pub bump: u8,
}

/// Aggregate state of one auction day.
#[derive(Clone, Copy, Debug, PartialEq, Eq)]
pub struct AuctionDay {
    pub day_index: i64,
    pub finalized: bool,
    pub winner: Identity,
    pub highest_bid: u64,
    pub bidder_count: u32,
    pub refund_count_total: u32,
    pub refund_count_completed: u32,
    pub total_bid_lamports: u64,
    pub refund_pool_remaining: u64,
    pub fee_pool_remaining: u64,
    pub vault_bump: u8,
}

/// Escrow record of one bidder on one day.
#[derive(Clone, Copy, Debug, PartialEq, Eq)]
pub struct BidReceipt {
    pub auction_day: Identity,
    pub bidder: Identity,
    pub amount: u64,
    pub refunded: bool,
}

/// Why a call was refused. A refused call changes nothing.
#[derive(Clone, Copy, Debug, PartialEq, Eq, Structural)]
pub enum ErrorCode {
    MissingBump,
    DayTooFarAhead,
    WrongDay,
    AlreadyFinalized,
    BidTooLow,
    BidDecrease,
    InvalidBidAmount,
    MathOverflow,
    DayMismatch,
    TooEarly,
    BidderCountMismatch,
    FeePoolTooLarge,
    InsufficientVaultLamports,
    RecipientMismatch,
    BidderMismatch,
    BidReceiptMismatch,
    BidReceiptOwnerMismatch,
    NotFinalized,
    InvalidRemainingAccounts,
    InsufficientRefundPool,
    InsufficientFeePool,
    InvalidVaultOwner,
    /// The stored bytes of a bid receipt do not decode to a receipt.
    BidReceiptUnreadable,
}

/// Where a day stands in its life.
#[derive(Clone, Copy, Debug, PartialEq, Eq, Structural)]
pub enum DayPhase {
    /// The record was never written.
    Uninitialized,
    /// Bids are taken.
    Open,
    /// The day is settled; refunds are paid.
    Finalized,
}

impl ErrorCode {
    /// The sentence that describes the refusal.
    pub open spec fn text(&self) -> Seq<char> {
        match *self {
            ErrorCode::MissingBump => "Missing bump seed"@,
            ErrorCode::DayTooFarAhead => "Day is too far ahead for init_day"@,
            ErrorCode::WrongDay => "Wrong day for bidding"@,
            ErrorCode::AlreadyFinalized => "Auction day already finalized"@,
            ErrorCode::BidTooLow => "Bid does not meet minimum increment"@,
            ErrorCode::BidDecrease => "Bid must be greater than previous amount"@,
            ErrorCode::InvalidBidAmount => "Invalid bid amount"@,
            ErrorCode::MathOverflow => "Math overflow"@,
            ErrorCode::DayMismatch => "Auction day mismatch"@,
            ErrorCode::TooEarly => "Settlement too early"@,
            ErrorCode::BidderCountMismatch => "Bidder count mismatch"@,
            ErrorCode::FeePoolTooLarge => "Fee pool exceeds loser sum"@,
            ErrorCode::InsufficientVaultLamports => "Insufficient vault lamports"@,
            ErrorCode::RecipientMismatch => "Recipient does not match config"@,
            ErrorCode::BidderMismatch => "Bidder mismatch"@,
            ErrorCode::BidReceiptMismatch => "Bid receipt PDA mismatch"@,
            ErrorCode::BidReceiptOwnerMismatch => "Bid receipt owner mismatch"@,
            ErrorCode::NotFinalized => "Not finalized"@,
            ErrorCode::InvalidRemainingAccounts => "Invalid remaining accounts"@,
            ErrorCode::InsufficientRefundPool => "Insufficient refund pool"@,
            ErrorCode::InsufficientFeePool => "Insufficient fee pool"@,
            ErrorCode::InvalidVaultOwner => "Vault is not owned by the system program"@,
            ErrorCode::BidReceiptUnreadable => "Bid receipt does not decode"@,
        }
    }

    /// The sentence that describes the refusal.
    pub fn message(&self) -> (r: &'static str)
        ensures
            r@ == self.text(),
    {
        match *self {
            ErrorCode::MissingBump => "Missing bump seed",
            ErrorCode::DayTooFarAhead => "Day is too far ahead for init_day",
            ErrorCode::WrongDay => "Wrong day for bidding",
            ErrorCode::AlreadyFinalized => "Auction day already finalized",
            ErrorCode::BidTooLow => "Bid does not meet minimum increment",
            ErrorCode::BidDecrease => "Bid must be greater than previous amount",
            ErrorCode::InvalidBidAmount => "Invalid bid amount",
            ErrorCode::MathOverflow => "Math overflow",
            ErrorCode::DayMismatch => "Auction day mismatch",
            ErrorCode::TooEarly => "Settlement too early",
            ErrorCode::BidderCountMismatch => "Bidder count mismatch",
            ErrorCode::FeePoolTooLarge => "Fee pool exceeds loser sum",
            ErrorCode::InsufficientVaultLamports => "Insufficient vault lamports",
            ErrorCode::RecipientMismatch => "Recipient does not match config",
            ErrorCode::BidderMismatch => "Bidder mismatch",
            ErrorCode::BidReceiptMismatch => "Bid receipt PDA mismatch",
            ErrorCode::BidReceiptOwnerMismatch => "Bid receipt owner mismatch",
            ErrorCode::NotFinalized => "Not finalized",
            ErrorCode::InvalidRemainingAccounts => "Invalid remaining accounts",
            ErrorCode::InsufficientRefundPool => "Insufficient refund pool",
            ErrorCode::InsufficientFeePool => "Insufficient fee pool",
            ErrorCode::InvalidVaultOwner => "Vault is not owned by the system program",
            ErrorCode::BidReceiptUnreadable => "Bid receipt does not decode",
        }
    }
}

impl Config {
    /// Bytes that a stored `Config` occupies.
    pub const SPACE: usize = 57;
}

impl AuctionDay {
    /// Bytes that a stored `AuctionDay` occupies.
    pub const SPACE: usize = 94;

    /// A record is blank when every field that bidding or settlement writes
    /// still has its zero value.
    pub open spec fn is_blank(&self) -> bool {
        &&& self.day_index == 0
        &&& !self.finalized
        &&& self.winner@ == zero_bytes()
        &&& self.highest_bid == 0
        &&& self.bidder_count == 0
        &&& self.refund_count_total == 0
        &&& self.refund_count_completed == 0
        &&& self.total_bid_lamports == 0
        &&& self.refund_pool_remaining == 0
        &&& self.fee_pool_remaining == 0
    }

    /// What a record stands for once a call has touched it. A blank record
    /// becomes the open day `day_index` with the escrow salt `vault_bump`;
    /// its other fields are zero already. Any other record is taken as it
    /// is.
    pub open spec fn touched(&self, day_index: i64, vault_bump: u8) -> AuctionDay {
        if self.is_blank() {
            AuctionDay { day_index, vault_bump, ..*self }
        } else {
            *self
        }
    }

    /// Where the day stands in its life.
    pub open spec fn spec_phase(&self) -> DayPhase {
        if self.is_blank() {
            DayPhase::Uninitialized
        } else if self.finalized {
            DayPhase::Finalized
        } else {
            DayPhase::Open
        }
    }

    /// Where the day stands in its life.
    pub fn phase(&self) -> (r: DayPhase)
        ensures
            r == self.spec_phase(),
    {
        if is_uninitialized_auction_day(self) {
            DayPhase::Uninitialized
        } else if self.finalized {
            DayPhase::Finalized
        } else {
            DayPhase::Open
        }
    }

    /// While a day is open its pools and refund counters are all zero.
    pub open spec fn open_pools_empty(&self) -> bool {
        !self.finalized ==> {
            &&& self.refund_pool_remaining == 0
            &&& self.fee_pool_remaining == 0
            &&& self.refund_count_total == 0
            &&& self.refund_count_completed == 0
        }
    }

    /// Opens the record if it is blank and returns it unchanged otherwise.
    pub fn touch(&self, day_index: i64, vault_bump: u8) -> (r: AuctionDay)
        ensures
            r == self.touched(day_index, vault_bump),
    {
        if is_uninitialized_auction_day(self) {
            AuctionDay {
                day_index,
                finalized: false,
                winner: self.winner,
                highest_bid: 0,
                bidder_count: 0,
                refund_count_total: 0,
                refund_count_completed: 0,
                total_bid_lamports: 0,
                refund_pool_remaining: 0,
                fee_pool_remaining: 0,
                vault_bump,
            }
        } else {
            *self
        }
    }
}

impl BidReceipt {
    /// Bytes that a stored `BidReceipt` occupies.
    pub const SPACE: usize = 81;
}

/// The day bucket that a time falls in: the time divided by the length of a
/// day, rounded toward zero.
pub open spec fn day_bucket(unix_timestamp: int) -> int {
    if unix_timestamp >= 0 {
        unix_timestamp / (SECONDS_PER_DAY as int)
    } else {
        -((-unix_timestamp) / (SECONDS_PER_DAY as int))
    }
}

/// The index of the day bucket that holds `unix_timestamp`.
pub fn current_day_index(unix_timestamp: i64) -> (r: i64)
    ensures
        r == day_bucket(unix_timestamp as int),
        -106_751_991_167_301 <= r <= 106_751_991_167_300,
{
    if unix_timestamp >= 0 {
        let t: u64 = unix_timestamp as u64;
        (t / (SECONDS_PER_DAY as u64)) as i64
    } else {
        // -unix_timestamp would overflow on the least value, so step through u64.
        let t: u64 = (-(unix_timestamp + 1)) as u64 + 1;
        let q: u64 = t / (SECONDS_PER_DAY as u64);
        -(q as i64)
    }
}

/// Whether the record has never been written: every field but the escrow
/// bump still has its zero value.
pub fn is_uninitialized_auction_day(auction_day: &AuctionDay) -> (r: bool)
    ensures
        r == auction_day.is_blank(),
{
    auction_day.day_index == 0
        && !auction_day.finalized
        && auction_day.winner.is_zero()
        && auction_day.highest_bid == 0
        && auction_day.bidder_count == 0
        && auction_day.refund_count_total == 0
        && auction_day.refund_count_completed == 0
        && auction_day.total_bid_lamports == 0
        && auction_day.refund_pool_remaining == 0
        && auction_day.fee_pool_remaining == 0
}

} // verus!
