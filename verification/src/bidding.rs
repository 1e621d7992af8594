//! Creating the configuration, opening a day and placing a bid.

use vstd::prelude::*;
use crate::address::is_custody_authority;
use crate::identity::{zero_bytes, Identity};
use crate::state::{
    current_day_index, day_bucket, AuctionDay, BidReceipt, Config, ErrorCode,
    INIT_DAY_MAX_AHEAD_DAYS,
};

verus! {

/// What creating the configuration reads besides its arguments.
#[derive(Clone, Copy, Debug, PartialEq, Eq)]
pub struct InitConfig {
    /// Salt of the address at which the configuration is stored.
    pub bump: u8,
}

/// What opening a day reads.
#[derive(Clone, Copy, Debug, PartialEq, Eq)]
pub struct InitDay {
    /// The day's record as stored; blank if the day was never touched.
    pub auction_day: AuctionDay,
    /// Owner of the day's escrow.
    pub vault_owner: Identity,
    /// Salt of the escrow's address.
    pub vault_bump: u8,
    /// The current time.
    pub unix_timestamp: i64,
}

/// What placing a bid reads.
#[derive(Clone, Copy, Debug, PartialEq, Eq)]
pub struct PlaceBid {
    /// Who bids.
    pub bidder: Identity,
    pub config: Config,
    /// Address at which the day's record is stored.
    pub auction_day_key: Identity,
    /// The day's record as stored; blank if the day was never touched.
    pub auction_day: AuctionDay,
    /// Owner of the day's escrow.
    pub vault_owner: Identity,
    /// Salt of the escrow's address.
    pub vault_bump: u8,
    /// The bidder's receipt as stored; blank before their first bid.
    pub bid_receipt: BidReceipt,
    /// The current time.
    pub unix_timestamp: i64,
}

/// What an accepted bid writes, and the amount to move from the bidder into
/// escrow.
#[derive(Clone, Copy, Debug, PartialEq, Eq)]
pub struct BidOutcome {
    pub auction_day: AuctionDay,
    pub bid_receipt: BidReceipt,
    pub transfer_lamports: u64,
}

/// The configuration made of the three parameters and the address salt.
pub fn init_config(
    ctx: InitConfig,
    recipient_pubkey: Identity,
    loser_fee_lamports: u64,
    min_increment_lamports: u64,
) -> (r: Result<Config, ErrorCode>)
    ensures
        r == Ok::<Config, ErrorCode>(
            (Config {
                recipient_pubkey,
                loser_fee_lamports,
                min_increment_lamports,
                bump: ctx.bump,
            }),
        ),
{
    Ok(Config { recipient_pubkey, loser_fee_lamports, min_increment_lamports, bump: ctx.bump })
}

impl InitDay {
    /// Why opening `day_index` is refused, if it is: the day lies more than
    /// two days ahead of the current one, or the escrow has another owner
    /// than the custody authority.
    pub open spec fn rejection(&self, day_index: i64) -> Option<ErrorCode> {
        if day_index > day_bucket(self.unix_timestamp as int) + INIT_DAY_MAX_AHEAD_DAYS {
            Some(ErrorCode::DayTooFarAhead)
        } else if self.vault_owner@ != zero_bytes() {
            Some(ErrorCode::InvalidVaultOwner)
        } else {
            None
        }
    }
}

/// Opens the day `day_index`: a blank record becomes an open day with that
/// index, a populated one stays as it is.
pub fn init_day(ctx: InitDay, day_index: i64) -> (r: Result<AuctionDay, ErrorCode>)
    ensures
        match ctx.rejection(day_index) {
            Some(e) => r == Err::<AuctionDay, ErrorCode>(e),
            None => r == Ok::<AuctionDay, ErrorCode>(
                ctx.auction_day.touched(day_index, ctx.vault_bump),
            ),
        },
        r matches Ok(day) ==> (ctx.auction_day.open_pools_empty() ==> day.open_pools_empty()),
{
    let today = current_day_index(ctx.unix_timestamp);
    if day_index > today + INIT_DAY_MAX_AHEAD_DAYS {
        return Err(ErrorCode::DayTooFarAhead);
    }
    let auction_day = ctx.auction_day.touch(day_index, ctx.vault_bump);
    if !is_custody_authority(&ctx.vault_owner) {
        return Err(ErrorCode::InvalidVaultOwner);
    }
    Ok(auction_day)
}

impl BidReceipt {
    /// A receipt is new while no bidder is written on it.
    pub open spec fn is_new(&self) -> bool {
        self.bidder@ == zero_bytes()
    }
}

impl PlaceBid {
    /// The day that the bid meets: the stored record, opened for today if it
    /// was blank.
    pub open spec fn day(&self) -> AuctionDay {
        self.auction_day.touched(
            day_bucket(self.unix_timestamp as int) as i64,
            self.vault_bump,
        )
    }

    /// The least amount that the day accepts: the minimum increment when
    /// nothing was bid, else the highest bid plus the minimum increment.
    pub open spec fn floor(&self) -> int {
        self.day().highest_bid + self.config.min_increment_lamports
    }

    /// The bidder written on the receipt once the bid has claimed it.
    pub open spec fn receipt_bidder(&self) -> Identity {
        if self.bid_receipt.is_new() {
            self.bidder
        } else {
            self.bid_receipt.bidder
        }
    }

    /// The number of bidders once this bid is counted.
    pub open spec fn bidders_after(&self) -> int {
        if self.bid_receipt.is_new() {
            self.day().bidder_count + 1
        } else {
            self.day().bidder_count as int
        }
    }

    /// Why the bid is refused, if it is. The conditions are tried in this
    /// order and the first that holds is reported.
    pub open spec fn rejection(&self, day_index: i64, new_amount: u64) -> Option<ErrorCode> {
        if new_amount == 0 {
            Some(ErrorCode::InvalidBidAmount)
        } else if day_index != day_bucket(self.unix_timestamp as int) {
            Some(ErrorCode::WrongDay)
        } else if self.vault_owner@ != zero_bytes() {
            Some(ErrorCode::InvalidVaultOwner)
        } else if self.day().finalized {
            Some(ErrorCode::AlreadyFinalized)
        } else if self.day().highest_bid != 0 && self.floor() > u64::MAX {
            Some(ErrorCode::MathOverflow)
        } else if new_amount < self.floor() {
            Some(ErrorCode::BidTooLow)
        } else if self.bidders_after() > u32::MAX {
            Some(ErrorCode::MathOverflow)
        } else if self.receipt_bidder()@ != self.bidder@ {
            Some(ErrorCode::BidderMismatch)
        } else if new_amount <= self.bid_receipt.amount {
            Some(ErrorCode::BidDecrease)
        } else if self.day().total_bid_lamports + (new_amount - self.bid_receipt.amount)
            > u64::MAX {
            Some(ErrorCode::MathOverflow)
        } else {
            None
        }
    }

    /// What an accepted bid of `new_amount` writes and moves: the receipt
    /// holds the new amount, the day's total grows by the raise, which is
    /// also what goes into escrow, and a bid above the highest takes the
    /// lead.
    pub open spec fn accepted(&self, new_amount: u64) -> BidOutcome {
        let day = self.day();
        let raise = (new_amount - self.bid_receipt.amount) as u64;
        let leads = new_amount > day.highest_bid;
        BidOutcome {
            auction_day: AuctionDay {
                bidder_count: self.bidders_after() as u32,
                total_bid_lamports: (day.total_bid_lamports + raise) as u64,
                highest_bid: if leads { new_amount } else { day.highest_bid },
                winner: if leads { self.bidder } else { day.winner },
                ..day
            },
            bid_receipt: BidReceipt {
                auction_day: if self.bid_receipt.is_new() {
                    self.auction_day_key
                } else {
                    self.bid_receipt.auction_day
                },
                bidder: self.receipt_bidder(),
                amount: new_amount,
                refunded: if self.bid_receipt.is_new() {
                    false
                } else {
                    self.bid_receipt.refunded
                },
            },
            transfer_lamports: raise,
        }
    }
}

/// Places a bid of `new_amount` for the day `day_index`. The bid is either
/// refused, and then nothing is written, or accepted as `accepted` says.
pub fn place_bid(ctx: PlaceBid, day_index: i64, new_amount: u64) -> (r: Result<
    BidOutcome,
    ErrorCode,
>)
    ensures
        match ctx.rejection(day_index, new_amount) {
            Some(e) => r == Err::<BidOutcome, ErrorCode>(e),
            None => r == Ok::<BidOutcome, ErrorCode>(ctx.accepted(new_amount)),
        },
        r matches Ok(done) ==> {
            &&& !done.auction_day.finalized
            &&& ctx.auction_day.open_pools_empty() ==> done.auction_day.open_pools_empty()
            &&& done.bid_receipt.amount == new_amount
            &&& ctx.bid_receipt.amount < new_amount <= done.auction_day.highest_bid
            &&& done.transfer_lamports == new_amount - ctx.bid_receipt.amount
            &&& done.auction_day.total_bid_lamports == ctx.auction_day.total_bid_lamports
                + done.transfer_lamports
        },
{
    if new_amount == 0 {
        return Err(ErrorCode::InvalidBidAmount);
    }
    let today = current_day_index(ctx.unix_timestamp);
    if day_index != today {
        return Err(ErrorCode::WrongDay);
    }
    let mut auction_day = ctx.auction_day.touch(today, ctx.vault_bump);
    if !is_custody_authority(&ctx.vault_owner) {
        return Err(ErrorCode::InvalidVaultOwner);
    }
    if auction_day.finalized {
        return Err(ErrorCode::AlreadyFinalized);
    }
    let min_increment = ctx.config.min_increment_lamports;
    if auction_day.highest_bid == 0 {
        if new_amount < min_increment {
            return Err(ErrorCode::BidTooLow);
        }
    } else {
        match auction_day.highest_bid.checked_add(min_increment) {
            None => {
                return Err(ErrorCode::MathOverflow);
            },
            Some(required) => {
                if new_amount < required {
                    return Err(ErrorCode::BidTooLow);
                }
            },
        }
    }
    let mut bid_receipt = ctx.bid_receipt;
    if bid_receipt.bidder.is_zero() {
        bid_receipt.auction_day = ctx.auction_day_key;
        bid_receipt.bidder = ctx.bidder;
        bid_receipt.refunded = false;
        match auction_day.bidder_count.checked_add(1) {
            None => {
                return Err(ErrorCode::MathOverflow);
            },
            Some(count) => {
                auction_day.bidder_count = count;
            },
        }
    }
    if !bid_receipt.bidder.same(&ctx.bidder) {
        return Err(ErrorCode::BidderMismatch);
    }
    let previous_amount = bid_receipt.amount;
    if new_amount <= previous_amount {
        return Err(ErrorCode::BidDecrease);
    }
    let delta: u64 = new_amount - previous_amount;
    bid_receipt.amount = new_amount;
    match auction_day.total_bid_lamports.checked_add(delta) {
        None => {
            return Err(ErrorCode::MathOverflow);
        },
        Some(total) => {
            auction_day.total_bid_lamports = total;
        },
    }
    if new_amount > auction_day.highest_bid {
        auction_day.highest_bid = new_amount;
        auction_day.winner = ctx.bidder;
    }
    Ok(BidOutcome { auction_day, bid_receipt, transfer_lamports: delta })
}

} // verus!
