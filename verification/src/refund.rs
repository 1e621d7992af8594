//! Paying the losers back, a batch at a time.
//!
//! A batch lists bidders; for each it is handed the bidder's receipt record
//! and the bidder's own account. Entries are handled in list order. A receipt
//! that is already retired is passed over, so a bidder may be listed again,
//! in a later batch or in the same one.

use vstd::prelude::*;
use crate::address::{derive_receipt_address, is_custody_authority, receipt_address};
use crate::identity::{zero_bytes, Identity};
use crate::state::{AuctionDay, BidReceipt, Config, ErrorCode};

verus! {

/// One of the accounts handed to a batch besides the fixed ones.
#[derive(Clone, Copy, Debug, PartialEq, Eq)]
pub struct RemainingAccount {
    /// Address of the account.
    pub key: Identity,
    /// Program that owns the account.
    pub owner: Identity,
    /// The receipt stored in the account, or `None` where its bytes hold
    /// none.
    pub receipt: Option<BidReceipt>,
}

/// What a refund batch reads.
#[derive(Clone, Debug, PartialEq, Eq)]
pub struct RefundBatch {
    pub config: Config,
    /// Address at which the day's record is stored.
    pub auction_day_key: Identity,
    /// The day's record as stored.
    pub auction_day: AuctionDay,
    /// Owner of the day's escrow.
    pub vault_owner: Identity,
    /// Balance of the day's escrow.
    pub vault_lamports: u64,
    /// The program under which receipts are addressed and which owns them.
    pub program_id: Identity,
    /// Two accounts for each listed bidder: the receipt, then the bidder.
    pub remaining_accounts: Vec<RemainingAccount>,
}

/// What was done for one listed bidder.
#[derive(Clone, Copy, Debug, PartialEq, Eq, Structural)]
pub enum RefundAction {
    /// The receipt was retired before: nothing is written, nothing moves.
    Skipped,
    /// The winner's receipt is retired: it is marked refunded, nothing
    /// moves.
    Retired,
    /// A loser is paid: the receipt is marked refunded, `refund_lamports` go
    /// from escrow to the bidder and `fee_lamports` to the caller.
    Paid { refund_lamports: u64, fee_lamports: u64 },
}

/// The day's record and the escrow balance in the course of a batch.
#[derive(Clone, Copy, Debug, PartialEq, Eq)]
pub struct RefundProgress {
    pub auction_day: AuctionDay,
    pub vault_lamports: u64,
}

/// One listed bidder with the two accounts handed in for them.
#[derive(Clone, Copy, Debug, PartialEq, Eq)]
pub struct RefundEntry {
    pub bidder: Identity,
    pub receipt_account: RemainingAccount,
    pub bidder_account: RemainingAccount,
    /// Whether an earlier entry of the same batch retired this receipt.
    pub retired_earlier: bool,
}

/// What a batch writes: the day's record, and for each listed bidder, in
/// list order, what is to be done.
#[derive(Clone, Debug, PartialEq, Eq)]
pub struct RefundOutcome {
    pub auction_day: AuctionDay,
    pub vault_lamports: u64,
    pub actions: Vec<RefundAction>,
}

/// The bytes of an address that may be absent.
pub open spec fn address_bytes(address: Option<Identity>) -> Option<Seq<u8>> {
    match address {
        Some(a) => Some(a@),
        None => None,
    }
}

impl RefundAction {
    /// Whether the action marks a receipt refunded.
    pub open spec fn retires(&self) -> bool {
        *self != RefundAction::Skipped
    }

    /// The receipt as the action leaves it: marked refunded unless the
    /// entry was skipped.
    pub open spec fn written(&self, receipt: BidReceipt) -> BidReceipt {
        if self.retires() {
            BidReceipt { refunded: true, ..receipt }
        } else {
            receipt
        }
    }

    /// What leaves escrow by this action.
    pub open spec fn outflow(&self) -> int {
        match *self {
            RefundAction::Paid { refund_lamports, fee_lamports } => refund_lamports + fee_lamports,
            _ => 0,
        }
    }

    /// Marks the receipt as the action leaves it.
    pub fn write(&self, receipt: BidReceipt) -> (r: BidReceipt)
        ensures
            r == self.written(receipt),
    {
        match *self {
            RefundAction::Skipped => receipt,
            _ => BidReceipt {
                auction_day: receipt.auction_day,
                bidder: receipt.bidder,
                amount: receipt.amount,
                refunded: true,
            },
        }
    }
}

impl RefundProgress {
    /// The progress once `action` is done. Only a payment changes it: the
    /// refund leaves the refund pool, the fee leaves the fee pool, both
    /// leave escrow, and one more refund is counted as completed.
    pub open spec fn after(&self, action: RefundAction) -> RefundProgress {
        let day = self.auction_day;
        match action {
            RefundAction::Paid { refund_lamports, fee_lamports } => RefundProgress {
                auction_day: AuctionDay {
                    refund_pool_remaining: (day.refund_pool_remaining - refund_lamports) as u64,
                    fee_pool_remaining: (day.fee_pool_remaining - fee_lamports) as u64,
                    refund_count_completed: (day.refund_count_completed + 1) as u32,
                    ..day
                },
                vault_lamports: (self.vault_lamports - refund_lamports - fee_lamports) as u64,
            },
            _ => *self,
        }
    }
}

impl RefundEntry {
    /// Why the accounts handed in for the bidder are refused, if they are:
    /// the bidder's account is another's, the receipt is not at the address
    /// `expected` derived for this day and bidder, it is not owned by the
    /// program, it does not decode, or it names another day or bidder.
    pub open spec fn mismatch(
        &self,
        auction_day_key: Identity,
        program_id: Identity,
        expected: Option<Seq<u8>>,
    ) -> Option<ErrorCode> {
        if self.bidder_account.key@ != self.bidder@ {
            Some(ErrorCode::BidderMismatch)
        } else if expected != Some(self.receipt_account.key@) {
            Some(ErrorCode::BidReceiptMismatch)
        } else if self.receipt_account.owner@ != program_id@ {
            Some(ErrorCode::BidReceiptOwnerMismatch)
        } else {
            match self.receipt_account.receipt {
                None => Some(ErrorCode::BidReceiptUnreadable),
                Some(receipt) => if receipt.auction_day@ != auction_day_key@ {
                    Some(ErrorCode::BidReceiptMismatch)
                } else if receipt.bidder@ != self.bidder@ {
                    Some(ErrorCode::BidderMismatch)
                } else {
                    None
                },
            }
        }
    }

    /// Whether the receipt is already retired, by an earlier call or by an
    /// earlier entry of this batch.
    pub open spec fn is_retired(&self) -> bool {
        self.retired_earlier || (self.receipt_account.receipt matches Some(receipt)
            && receipt.refunded)
    }

    /// The receipt as the entry meets it: the stored one, marked refunded
    /// where an earlier entry of the batch retired it.
    pub open spec fn receipt(&self) -> Option<BidReceipt> {
        match self.receipt_account.receipt {
            Some(receipt) => Some(
                if self.retired_earlier {
                    RefundAction::Retired.written(receipt)
                } else {
                    receipt
                },
            ),
            None => None,
        }
    }

    /// The amount escrowed on the receipt (zero where there is none).
    pub open spec fn amount(&self) -> u64 {
        match self.receipt_account.receipt {
            Some(receipt) => receipt.amount,
            None => 0,
        }
    }

    /// What is to be done for an entry whose accounts match: nothing for a
    /// retired receipt, a retirement for the winner, and for a loser the
    /// payment of the escrowed amount, split into the flat fee and the rest.
    pub open spec fn action(&self, config: Config, progress: RefundProgress) -> RefundAction {
        if self.is_retired() {
            RefundAction::Skipped
        } else if self.bidder@ == progress.auction_day.winner@ {
            RefundAction::Retired
        } else {
            RefundAction::Paid {
                refund_lamports: (self.amount() - config.loser_fee_lamports) as u64,
                fee_lamports: config.loser_fee_lamports,
            }
        }
    }

    /// Why an entry whose accounts match cannot be done, if it cannot. A
    /// retired receipt and the winner's receipt are never refused; for a
    /// loser the conditions are tried in this order and the first that holds
    /// is reported.
    pub open spec fn shortfall(&self, config: Config, progress: RefundProgress) -> Option<
        ErrorCode,
    > {
        let day = progress.auction_day;
        let fee = config.loser_fee_lamports;
        if self.is_retired() || self.bidder@ == day.winner@ {
            None
        } else if self.amount() <= fee {
            Some(ErrorCode::InvalidBidAmount)
        } else if day.refund_pool_remaining < self.amount() - fee {
            Some(ErrorCode::InsufficientRefundPool)
        } else if day.fee_pool_remaining < fee {
            Some(ErrorCode::InsufficientFeePool)
        } else if progress.vault_lamports < self.amount() {
            Some(ErrorCode::InsufficientVaultLamports)
        } else if day.refund_count_completed == u32::MAX {
            Some(ErrorCode::MathOverflow)
        } else {
            None
        }
    }

    /// Why the entry is refused, if it is: its accounts do not match, or it
    /// cannot be done.
    pub open spec fn rejection(
        &self,
        config: Config,
        auction_day_key: Identity,
        program_id: Identity,
        expected: Option<Seq<u8>>,
        progress: RefundProgress,
    ) -> Option<ErrorCode> {
        match self.mismatch(auction_day_key, program_id, expected) {
            Some(e) => Some(e),
            None => self.shortfall(config, progress),
        }
    }

    /// The entry's result: the refusal, or the action and the progress
    /// after it.
    pub open spec fn outcome(
        &self,
        config: Config,
        auction_day_key: Identity,
        program_id: Identity,
        expected: Option<Seq<u8>>,
        progress: RefundProgress,
    ) -> Result<(RefundProgress, RefundAction), ErrorCode> {
        match self.rejection(config, auction_day_key, program_id, expected, progress) {
            Some(e) => Err(e),
            None => Ok(
                (progress.after(self.action(config, progress)), self.action(config, progress)),
            ),
        }
    }
}

/// Handles one listed bidder. `expected_receipt` is the address derived for
/// the receipt of this bidder on this day. The entry is either refused, or
/// the action for it is returned with the progress after it. An entry whose
/// receipt is already retired changes nothing.
pub fn refund_entry(
    config: &Config,
    auction_day_key: &Identity,
    program_id: &Identity,
    expected_receipt: Option<Identity>,
    progress: RefundProgress,
    entry: &RefundEntry,
) -> (r: Result<(RefundProgress, RefundAction), ErrorCode>)
    ensures
        r == entry.outcome(
            *config,
            *auction_day_key,
            *program_id,
            address_bytes(expected_receipt),
            progress,
        ),
        r matches Ok(done) ==> {
            &&& entry.is_retired() ==> done.0 == progress && done.1 == RefundAction::Skipped
            &&& done.1 is Retired ==> done.0 == progress
            &&& done.0.auction_day.finalized == progress.auction_day.finalized
            &&& done.0.auction_day.refund_count_completed
                >= progress.auction_day.refund_count_completed
            &&& done.0.auction_day.refund_pool_remaining + done.0.auction_day.fee_pool_remaining
                + done.1.outflow() == progress.auction_day.refund_pool_remaining
                + progress.auction_day.fee_pool_remaining
            &&& done.0.vault_lamports + done.1.outflow() == progress.vault_lamports
        },
{
    if !entry.bidder_account.key.same(&entry.bidder) {
        return Err(ErrorCode::BidderMismatch);
    }
    match expected_receipt {
        None => {
            return Err(ErrorCode::BidReceiptMismatch);
        },
        Some(expected) => {
            if !entry.receipt_account.key.same(&expected) {
                return Err(ErrorCode::BidReceiptMismatch);
            }
        },
    }
    if !entry.receipt_account.owner.same(program_id) {
        return Err(ErrorCode::BidReceiptOwnerMismatch);
    }
    let receipt = match entry.receipt_account.receipt {
        None => {
            return Err(ErrorCode::BidReceiptUnreadable);
        },
        Some(receipt) => receipt,
    };
    if !receipt.auction_day.same(auction_day_key) {
        return Err(ErrorCode::BidReceiptMismatch);
    }
    if !receipt.bidder.same(&entry.bidder) {
        return Err(ErrorCode::BidderMismatch);
    }
    if receipt.refunded || entry.retired_earlier {
        return Ok((progress, RefundAction::Skipped));
    }
    let mut auction_day = progress.auction_day;
    if entry.bidder.same(&auction_day.winner) {
        return Ok((progress, RefundAction::Retired));
    }
    let fee: u64 = config.loser_fee_lamports;
    if receipt.amount <= fee {
        return Err(ErrorCode::InvalidBidAmount);
    }
    let refund_amount: u64 = receipt.amount - fee;
    if auction_day.refund_pool_remaining < refund_amount {
        return Err(ErrorCode::InsufficientRefundPool);
    }
    if auction_day.fee_pool_remaining < fee {
        return Err(ErrorCode::InsufficientFeePool);
    }
    if progress.vault_lamports < receipt.amount {
        return Err(ErrorCode::InsufficientVaultLamports);
    }
    if auction_day.refund_count_completed == u32::MAX {
        return Err(ErrorCode::MathOverflow);
    }
    auction_day.refund_pool_remaining = auction_day.refund_pool_remaining - refund_amount;
    auction_day.fee_pool_remaining = auction_day.fee_pool_remaining - fee;
    auction_day.refund_count_completed = auction_day.refund_count_completed + 1;
    Ok(
        (
            RefundProgress {
                auction_day,
                vault_lamports: progress.vault_lamports - refund_amount - fee,
            },
            RefundAction::Paid { refund_lamports: refund_amount, fee_lamports: fee },
        ),
    )
}

/// Whether entry `j` retired the receipt that entry `i` is handed.
pub open spec fn retired_by(
    accounts: Seq<RemainingAccount>,
    actions: Seq<RefundAction>,
    i: int,
    j: int,
) -> bool {
    &&& 0 <= j < i
    &&& j < actions.len()
    &&& actions[j].retires()
    &&& accounts[2 * j].key@ == accounts[2 * i].key@
}

/// Whether one of the entries before `i` retired the receipt that entry `i`
/// is handed.
pub open spec fn retired_before(
    accounts: Seq<RemainingAccount>,
    actions: Seq<RefundAction>,
    i: int,
) -> bool {
    exists|j: int| retired_by(accounts, actions, i, j)
}

impl RefundBatch {
    /// Why the batch is refused before any entry is looked at, if it is.
    pub open spec fn rejection(&self, day_index: i64, bidders: Seq<Identity>) -> Option<
        ErrorCode,
    > {
        if !self.auction_day.finalized {
            Some(ErrorCode::NotFinalized)
        } else if self.auction_day.day_index != day_index {
            Some(ErrorCode::DayMismatch)
        } else if self.vault_owner@ != zero_bytes() {
            Some(ErrorCode::InvalidVaultOwner)
        } else if bidders.len() * 2 > usize::MAX {
            Some(ErrorCode::MathOverflow)
        } else if self.remaining_accounts@.len() != bidders.len() * 2 {
            Some(ErrorCode::InvalidRemainingAccounts)
        } else {
            None
        }
    }

    /// The progress before the first entry.
    pub open spec fn start(&self) -> RefundProgress {
        RefundProgress { auction_day: self.auction_day, vault_lamports: self.vault_lamports }
    }

    /// Entry `i` of the batch, given what was done for the entries before
    /// it.
    pub open spec fn entry(&self, bidders: Seq<Identity>, actions: Seq<RefundAction>, i: int)
        -> RefundEntry {
        RefundEntry {
            bidder: bidders[i],
            receipt_account: self.remaining_accounts@[2 * i],
            bidder_account: self.remaining_accounts@[2 * i + 1],
            retired_earlier: retired_before(self.remaining_accounts@, actions, i),
        }
    }

    /// The result of the first `n` entries, handled in list order: the
    /// first refusal, or the progress and the actions.
    pub open spec fn run(&self, bidders: Seq<Identity>, n: nat) -> Result<
        (RefundProgress, Seq<RefundAction>),
        ErrorCode,
    >
        decreases n,
    {
        if n == 0 {
            Ok((self.start(), Seq::empty()))
        } else {
            match self.run(bidders, (n - 1) as nat) {
                Err(e) => Err(e),
                Ok(before) => {
                    let i = n - 1;
                    match self.entry(bidders, before.1, i).outcome(
                        self.config,
                        self.auction_day_key,
                        self.program_id,
                        receipt_address(self.auction_day_key, bidders[i], self.program_id),
                        before.0,
                    ) {
                        Err(e) => Err(e),
                        Ok(done) => Ok((done.0, before.1.push(done.1))),
                    }
                },
            }
        }
    }
}

/// Once an entry is refused, the batch is refused for the same reason
/// however many entries follow.
pub proof fn lemma_refusal_stands(ctx: RefundBatch, bidders: Seq<Identity>, n: nat, m: nat)
    requires
        n <= m,
        ctx.run(bidders, n) is Err,
    ensures
        ctx.run(bidders, m) == ctx.run(bidders, n),
    decreases m,
{
    if n < m {
        lemma_refusal_stands(ctx, bidders, n, (m - 1) as nat);
    }
}

fn retired_earlier(accounts: &Vec<RemainingAccount>, actions: &Vec<RefundAction>, i: usize) -> (r:
    bool)
    requires
        actions@.len() == i,
        2 * i + 1 < accounts@.len(),
    ensures
        r == retired_before(accounts@, actions@, i as int),
{
    let total: usize = accounts.len();
    let key = accounts[2 * i].key;
    let mut j: usize = 0;
    while j < i
        invariant
            j <= i,
            actions@.len() == i,
            total == accounts@.len(),
            2 * i + 1 < total,
            key == accounts@[2 * i as int].key,
            forall|k: int| 0 <= k < j ==> !retired_by(accounts@, actions@, i as int, k),
        decreases i - j,
    {
        let retires = match actions[j] {
            RefundAction::Skipped => false,
            _ => true,
        };
        if retires && accounts[2 * j].key.same(&key) {
            assert(retired_by(accounts@, actions@, i as int, j as int));
            return true;
        }
        j += 1;
    }
    false
}

/// Handles the listed bidders in order. The batch is either refused, for
/// the reason that `rejection` or the first refused entry gives, and then
/// nothing is written; or every entry is done, and the day's record, the
/// escrow balance and the actions are those of `run` over the whole list.
pub fn refund_batch(ctx: RefundBatch, day_index: i64, bidders: Vec<Identity>) -> (r: Result<
    RefundOutcome,
    ErrorCode,
>)
    ensures
        match ctx.rejection(day_index, bidders@) {
            Some(e) => r == Err::<RefundOutcome, ErrorCode>(e),
            None => match ctx.run(bidders@, bidders@.len()) {
                Err(e) => r == Err::<RefundOutcome, ErrorCode>(e),
                Ok(done) => r matches Ok(o) && o.auction_day == done.0.auction_day
                    && o.vault_lamports == done.0.vault_lamports && o.actions@ == done.1,
            },
        },
{
    if !ctx.auction_day.finalized {
        return Err(ErrorCode::NotFinalized);
    }
    if ctx.auction_day.day_index != day_index {
        return Err(ErrorCode::DayMismatch);
    }
    if !is_custody_authority(&ctx.vault_owner) {
        return Err(ErrorCode::InvalidVaultOwner);
    }
    let n: usize = bidders.len();
    if n > usize::MAX / 2 {
        return Err(ErrorCode::MathOverflow);
    }
    if ctx.remaining_accounts.len() != n * 2 {
        return Err(ErrorCode::InvalidRemainingAccounts);
    }
    let mut progress = RefundProgress {
        auction_day: ctx.auction_day,
        vault_lamports: ctx.vault_lamports,
    };
    let mut actions: Vec<RefundAction> = Vec::new();
    let mut i: usize = 0;
    while i < n
        invariant
            i <= n,
            n == bidders@.len(),
            ctx.remaining_accounts@.len() == 2 * n,
            ctx.rejection(day_index, bidders@) is None,
            ctx.run(bidders@, i as nat) == Ok::<(RefundProgress, Seq<RefundAction>), ErrorCode>(
                (progress, actions@),
            ),
            actions@.len() == i,
        decreases n - i,
    {
        let bidder = bidders[i];
        let entry = RefundEntry {
            bidder,
            receipt_account: ctx.remaining_accounts[2 * i],
            bidder_account: ctx.remaining_accounts[2 * i + 1],
            retired_earlier: retired_earlier(&ctx.remaining_accounts, &actions, i),
        };
        let expected = derive_receipt_address(&ctx.auction_day_key, &bidder, &ctx.program_id);
        assert(entry == ctx.entry(bidders@, actions@, i as int));
        assert(address_bytes(expected) == receipt_address(
            ctx.auction_day_key,
            bidders@[i as int],
            ctx.program_id,
        ));
        match refund_entry(
            &ctx.config,
            &ctx.auction_day_key,
            &ctx.program_id,
            expected,
            progress,
            &entry,
        ) {
            Err(e) => {
                proof {
                    assert(ctx.run(bidders@, (i + 1) as nat) is Err);
                    lemma_refusal_stands(ctx, bidders@, (i + 1) as nat, n as nat);
                }
                return Err(e);
            },
            Ok(done) => {
                progress = done.0;
                actions.push(done.1);
            },
        }
        i += 1;
    }
    Ok(RefundOutcome { auction_day: progress.auction_day, vault_lamports: progress.vault_lamports, actions })
}

} // verus!
