//! Closing a day: the winning bid goes to the recipient, and what the
//! losers escrowed is split into a refund pool and a fee pool.

use vstd::prelude::*;
use crate::address::is_custody_authority;
use crate::identity::{zero_bytes, Identity};
use crate::state::{current_day_index, day_bucket, AuctionDay, Config, ErrorCode};

verus! {

/// What settling a day reads.
#[derive(Clone, Copy, Debug, PartialEq, Eq)]
pub struct SettleDay {
    pub config: Config,
    /// The day's record as stored.
    pub auction_day: AuctionDay,
    /// Owner of the day's escrow.
    pub vault_owner: Identity,
    /// Balance of the day's escrow.
    pub vault_lamports: u64,
    /// Who is to receive the winning bid.
    pub recipient: Identity,
    /// The current time.
    pub unix_timestamp: i64,
}

/// What a settlement writes, and the amount to move from escrow to the
/// recipient (zero on a day without bids: nothing moves).
#[derive(Clone, Copy, Debug, PartialEq, Eq)]
pub struct Settlement {
    pub auction_day: AuctionDay,
    pub payout_lamports: u64,
}

impl SettleDay {
    /// How many bidders lost.
    pub open spec fn loser_count(&self) -> int {
        self.auction_day.bidder_count - 1
    }

    /// What the losers escrowed together.
    pub open spec fn loser_sum(&self) -> int {
        self.auction_day.total_bid_lamports - self.auction_day.highest_bid
    }

    /// The fee pool: one flat fee for each loser.
    pub open spec fn fee_pool(&self) -> int {
        self.loser_count() * self.config.loser_fee_lamports
    }

    /// The refund pool: what the losers escrowed, less the fee pool.
    pub open spec fn refund_pool(&self) -> int {
        self.loser_sum() - self.fee_pool()
    }

    /// Why the settlement is refused, if it is. The conditions are tried in
    /// this order and the first that holds is reported. A day without bids
    /// is settled as soon as the first four are passed.
    pub open spec fn rejection(&self, day_index: i64) -> Option<ErrorCode> {
        let day = self.auction_day;
        if day.finalized {
            Some(ErrorCode::AlreadyFinalized)
        } else if day.day_index != day_index {
            Some(ErrorCode::DayMismatch)
        } else if day_index >= day_bucket(self.unix_timestamp as int) {
            Some(ErrorCode::TooEarly)
        } else if self.vault_owner@ != zero_bytes() {
            Some(ErrorCode::InvalidVaultOwner)
        } else if day.highest_bid == 0 {
            None
        } else if day.bidder_count == 0 {
            Some(ErrorCode::BidderCountMismatch)
        } else if self.loser_sum() < 0 {
            Some(ErrorCode::MathOverflow)
        } else if self.fee_pool() > u64::MAX {
            Some(ErrorCode::MathOverflow)
        } else if self.fee_pool() > self.loser_sum() {
            Some(ErrorCode::FeePoolTooLarge)
        } else if self.vault_lamports < day.total_bid_lamports {
            Some(ErrorCode::InsufficientVaultLamports)
        } else if self.recipient@ != self.config.recipient_pubkey@ {
            Some(ErrorCode::RecipientMismatch)
        } else {
            None
        }
    }

    /// What an accepted settlement writes and moves. On a day without bids
    /// the pools and counters are zero and nothing moves; otherwise the
    /// highest bid moves, the pools are set and one refund is expected for
    /// each loser.
    pub open spec fn settled(&self) -> Settlement {
        let day = self.auction_day;
        if day.highest_bid == 0 {
            Settlement {
                auction_day: AuctionDay {
                    finalized: true,
                    refund_pool_remaining: 0,
                    fee_pool_remaining: 0,
                    refund_count_total: 0,
                    refund_count_completed: 0,
                    ..day
                },
                payout_lamports: 0,
            }
        } else {
            Settlement {
                auction_day: AuctionDay {
                    finalized: true,
                    refund_pool_remaining: self.refund_pool() as u64,
                    fee_pool_remaining: self.fee_pool() as u64,
                    refund_count_total: self.loser_count() as u32,
                    refund_count_completed: 0,
                    ..day
                },
                payout_lamports: day.highest_bid,
            }
        }
    }
}

/// Settles the day `day_index`. The settlement is either refused, and then
/// nothing is written, or done as `settled` says; then the two pools
/// together hold exactly what was escrowed beyond the amount paid out, and
/// escrow covers the payout and both pools.
pub fn settle_day(ctx: SettleDay, day_index: i64) -> (r: Result<Settlement, ErrorCode>)
    ensures
        match ctx.rejection(day_index) {
            Some(e) => r == Err::<Settlement, ErrorCode>(e),
            None => r == Ok::<Settlement, ErrorCode>(ctx.settled()),
        },
        r matches Ok(s) ==> s.auction_day.finalized && (ctx.auction_day.highest_bid != 0
            || ctx.auction_day.total_bid_lamports == 0 ==> s.auction_day.refund_pool_remaining
            + s.auction_day.fee_pool_remaining == ctx.auction_day.total_bid_lamports
            - ctx.auction_day.highest_bid),
        r matches Ok(s) ==> s.auction_day.refund_pool_remaining
            + s.auction_day.fee_pool_remaining + s.payout_lamports <= ctx.vault_lamports,
{
    let today = current_day_index(ctx.unix_timestamp);
    let mut auction_day = ctx.auction_day;
    if auction_day.finalized {
        return Err(ErrorCode::AlreadyFinalized);
    }
    if auction_day.day_index != day_index {
        return Err(ErrorCode::DayMismatch);
    }
    if day_index >= today {
        return Err(ErrorCode::TooEarly);
    }
    if !is_custody_authority(&ctx.vault_owner) {
        return Err(ErrorCode::InvalidVaultOwner);
    }
    if auction_day.highest_bid == 0 {
        auction_day.finalized = true;
        auction_day.refund_pool_remaining = 0;
        auction_day.fee_pool_remaining = 0;
        auction_day.refund_count_total = 0;
        auction_day.refund_count_completed = 0;
        return Ok(Settlement { auction_day, payout_lamports: 0 });
    }
    let bidder_count = auction_day.bidder_count;
    if bidder_count == 0 {
        return Err(ErrorCode::BidderCountMismatch);
    }
    let losers: u32 = bidder_count - 1;
    let loser_count: u64 = losers as u64;
    if auction_day.total_bid_lamports < auction_day.highest_bid {
        return Err(ErrorCode::MathOverflow);
    }
    let loser_sum: u64 = auction_day.total_bid_lamports - auction_day.highest_bid;
    let fee_pool: u64 = match loser_count.checked_mul(ctx.config.loser_fee_lamports) {
        None => {
            return Err(ErrorCode::MathOverflow);
        },
        Some(pool) => pool,
    };
    if loser_sum < fee_pool {
        return Err(ErrorCode::FeePoolTooLarge);
    }
    let refund_pool: u64 = loser_sum - fee_pool;
    if ctx.vault_lamports < auction_day.total_bid_lamports {
        return Err(ErrorCode::InsufficientVaultLamports);
    }
    if !ctx.recipient.same(&ctx.config.recipient_pubkey) {
        return Err(ErrorCode::RecipientMismatch);
    }
    auction_day.refund_pool_remaining = refund_pool;
    auction_day.fee_pool_remaining = fee_pool;
    auction_day.finalized = true;
    auction_day.refund_count_total = losers;
    auction_day.refund_count_completed = 0;
    Ok(Settlement { auction_day, payout_lamports: ctx.auction_day.highest_bid })
}

} // verus!
