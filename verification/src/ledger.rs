//! What holds of a day over many calls: of the bids placed on it, and of
//! the refunds paid after it was settled.

use vstd::prelude::*;
use crate::bidding::PlaceBid;
use crate::address::receipt_address;
use crate::identity::{lemma_identity_by_bytes, zero_bytes, Identity};
use crate::refund::{
    retired_before, retired_by, RefundAction, RefundBatch, RefundEntry, RefundProgress,
    RemainingAccount,
};
use crate::settlement::SettleDay;
use crate::state::{AuctionDay, BidReceipt, Config};

verus! {

/// One accepted call of `place_bid`, and the place in the book of receipts
/// of the receipt that it was handed. A place beyond the book stands for a
/// receipt that is yet to be created.
pub struct Bid {
    pub ctx: PlaceBid,
    pub day_index: i64,
    pub new_amount: u64,
    pub slot: nat,
}

impl Bid {
    /// Whether the call was accepted.
    #[verifier::opaque]
    pub open spec fn is_accepted(&self) -> bool {
        self.ctx.rejection(self.day_index, self.new_amount) is None
    }

    /// The day's record after the bid.
    pub open spec fn day_after(&self) -> AuctionDay {
        self.ctx.accepted(self.new_amount).auction_day
    }

    /// The bidder's receipt after the bid.
    pub open spec fn receipt_after(&self) -> BidReceipt {
        self.ctx.accepted(self.new_amount).bid_receipt
    }
}

/// The day's record after the first `n` of `bids`, on a day that stood at
/// `start` before the first.
pub open spec fn day_after(start: AuctionDay, bids: Seq<Bid>, n: int) -> AuctionDay {
    if n <= 0 {
        start
    } else {
        bids[n - 1].day_after()
    }
}

/// The book once `bid` has written its receipt: at its place, or at the
/// end of the book where the place lies beyond it.
pub open spec fn book_with(book: Seq<BidReceipt>, bid: Bid) -> Seq<BidReceipt> {
    if bid.slot < book.len() {
        book.update(bid.slot as int, bid.receipt_after())
    } else {
        book.push(bid.receipt_after())
    }
}

/// The book of receipts after the first `n` of `bids`, on a day without
/// receipts before the first.
pub open spec fn book_after(bids: Seq<Bid>, n: nat) -> Seq<BidReceipt>
    decreases n,
{
    if n == 0 {
        Seq::empty()
    } else {
        book_with(book_after(bids, (n - 1) as nat), bids[n - 1])
    }
}

/// Bid `i` is accepted and meets the day as the bid before it left it, or
/// as it stood at `start` where it is the first.
pub open spec fn bid_follows(start: AuctionDay, bids: Seq<Bid>, i: int) -> bool {
    &&& bids[i].is_accepted()
    &&& bids[i].ctx.auction_day == day_after(start, bids, i)
}

/// `bids` is a run of accepted bids on a day that stood at `start`.
pub open spec fn accepted_bids(start: AuctionDay, bids: Seq<Bid>) -> bool {
    forall|i: int| 0 <= i < bids.len() ==> #[trigger] bid_follows(start, bids, i)
}

/// Bid `i` is handed the receipt at its place in the book, or one that
/// holds nothing where there is none yet.
pub open spec fn receipt_kept(bids: Seq<Bid>, i: int) -> bool {
    let bid = bids[i];
    let book = book_after(bids, i as nat);
    if bid.slot < book.len() {
        bid.ctx.bid_receipt == book[bid.slot as int]
    } else {
        bid.ctx.bid_receipt.amount == 0
    }
}

/// Each of `bids` is handed the receipt at its place in the book, or one
/// that holds nothing where there is none yet.
pub open spec fn receipts_kept(bids: Seq<Bid>) -> bool {
    forall|i: int| 0 <= i < bids.len() ==> #[trigger] receipt_kept(bids, i)
}

/// What the receipts of a book hold together.
pub open spec fn escrowed(book: Seq<BidReceipt>) -> int
    decreases book.len(),
{
    if book.len() == 0 {
        0
    } else {
        escrowed(book.drop_last()) + book.last().amount
    }
}

proof fn lemma_escrowed_push(book: Seq<BidReceipt>, receipt: BidReceipt)
    ensures
        escrowed(book.push(receipt)) == escrowed(book) + receipt.amount,
{
    assert(book.push(receipt).drop_last() =~= book);
}

proof fn lemma_escrowed_update(book: Seq<BidReceipt>, k: int, receipt: BidReceipt)
    requires
        0 <= k < book.len(),
    ensures
        escrowed(book.update(k, receipt)) == escrowed(book) - book[k].amount + receipt.amount,
    decreases book.len(),
{
    let updated = book.update(k, receipt);
    if k == book.len() - 1 {
        assert(updated.drop_last() =~= book.drop_last());
    } else {
        lemma_escrowed_update(book.drop_last(), k, receipt);
        assert(updated.drop_last() =~= book.drop_last().update(k, receipt));
    }
}

/// An accepted bid leaves the greater of itself and the highest bid before
/// it as the highest bid, and takes the lead exactly when it is greater.
pub proof fn lemma_bid_leads_or_stands(bid: Bid)
    requires
        bid.is_accepted(),
    ensures
        bid.new_amount > 0,
        bid.new_amount > bid.ctx.auction_day.highest_bid ==> bid.day_after().highest_bid
            == bid.new_amount && bid.day_after().winner == bid.ctx.bidder,
        bid.new_amount <= bid.ctx.auction_day.highest_bid ==> bid.day_after().highest_bid
            == bid.ctx.auction_day.highest_bid && bid.day_after().winner
            == bid.ctx.auction_day.winner,
{
    reveal(Bid::is_accepted);
}

/// An accepted bid writes its amount on the receipt and adds to the day's
/// total what it adds to the receipt.
pub proof fn lemma_bid_adds_raise(bid: Bid)
    requires
        bid.is_accepted(),
    ensures
        bid.receipt_after().amount == bid.new_amount,
        bid.day_after().total_bid_lamports == bid.ctx.auction_day.total_bid_lamports
            + bid.new_amount - bid.ctx.bid_receipt.amount,
{
    reveal(Bid::is_accepted);
}

/// Over any run of accepted bids on a day that had none before, the highest
/// bid on record is the greatest amount that was ever bid, and the winner
/// on record is a bidder who bid it.
pub proof fn lemma_highest_bid_is_maximum(start: AuctionDay, bids: Seq<Bid>, n: nat)
    requires
        start.highest_bid == 0,
        0 < n <= bids.len(),
        accepted_bids(start, bids),
    ensures
        forall|i: int|
            0 <= i < n ==> (#[trigger] bids[i]).new_amount <= day_after(
                start,
                bids,
                n as int,
            ).highest_bid,
        exists|i: int|
            0 <= i < n && (#[trigger] bids[i]).new_amount == day_after(
                start,
                bids,
                n as int,
            ).highest_bid && bids[i].ctx.bidder == day_after(start, bids, n as int).winner,
    decreases n,
{
    let bid = bids[n - 1];
    let last = day_after(start, bids, n as int);
    let before = day_after(start, bids, n - 1);
    assert(bid_follows(start, bids, n - 1));
    lemma_bid_leads_or_stands(bid);
    if n == 1 {
        assert(bid.new_amount == last.highest_bid && bid.ctx.bidder == last.winner);
    } else {
        lemma_highest_bid_is_maximum(start, bids, (n - 1) as nat);
        let i = choose|i: int|
            0 <= i < n - 1 && (#[trigger] bids[i]).new_amount == before.highest_bid
                && bids[i].ctx.bidder == before.winner;
        if bid.new_amount > before.highest_bid {
            assert(bid.new_amount == last.highest_bid && bid.ctx.bidder == last.winner);
        } else {
            assert(bids[i].new_amount == last.highest_bid && bids[i].ctx.bidder == last.winner);
        }
    }
}

/// Over any run of accepted bids on a day that had none before, the total
/// on record is what the receipts hold together: a bidder who raised counts
/// with their latest amount only.
pub proof fn lemma_total_is_sum_of_receipts(start: AuctionDay, bids: Seq<Bid>, n: nat)
    requires
        start.total_bid_lamports == 0,
        n <= bids.len(),
        accepted_bids(start, bids),
        receipts_kept(bids),
    ensures
        day_after(start, bids, n as int).total_bid_lamports == escrowed(book_after(bids, n)),
    decreases n,
{
    if n > 0 {
        lemma_total_is_sum_of_receipts(start, bids, (n - 1) as nat);
        let bid = bids[n - 1];
        let book = book_after(bids, (n - 1) as nat);
        assert(bid_follows(start, bids, n - 1));
        assert(receipt_kept(bids, n - 1));
        lemma_bid_adds_raise(bid);
        if bid.slot < book.len() {
            lemma_escrowed_update(book, bid.slot as int, bid.receipt_after());
        } else {
            lemma_escrowed_push(book, bid.receipt_after());
        }
    }
}

/// Whether the account holds a receipt that is marked refunded.
pub open spec fn holds_refunded(account: RemainingAccount) -> bool {
    match account.receipt {
        Some(receipt) => receipt.refunded,
        None => false,
    }
}

/// A batch that lists only bidders whose receipts are already refunded is
/// refused or changes nothing: the day's record and the escrow balance stay
/// as they were, and every entry is skipped.
pub proof fn lemma_refunded_batch_changes_nothing(ctx: RefundBatch, bidders: Seq<Identity>, n: nat)
    requires
        forall|i: int| 0 <= i < n ==> holds_refunded(#[trigger] ctx.remaining_accounts@[2 * i]),
    ensures
        ctx.run(bidders, n) matches Ok(done) ==> done.0 == ctx.start() && done.1.len() == n
            && forall|i: int| 0 <= i < n ==> #[trigger] done.1[i] == RefundAction::Skipped,
    decreases n,
{
    if n > 0 {
        lemma_refunded_batch_changes_nothing(ctx, bidders, (n - 1) as nat);
        let i = n - 1;
        assert(holds_refunded(ctx.remaining_accounts@[2 * i]));
    }
}

/// What escrow holds beyond the two pools.
pub open spec fn escrow_surplus(progress: RefundProgress) -> int {
    progress.vault_lamports - progress.auction_day.refund_pool_remaining
        - progress.auction_day.fee_pool_remaining
}

/// A batch takes from escrow exactly what it takes from the two pools: what
/// escrow holds beyond the pools is the same after the batch as before, so
/// an escrow that covered the pools still covers them.
pub proof fn lemma_batch_keeps_escrow_surplus(ctx: RefundBatch, bidders: Seq<Identity>, n: nat)
    ensures
        ctx.run(bidders, n) matches Ok(done) ==> escrow_surplus(done.0) == escrow_surplus(
            ctx.start(),
        ) && done.0.auction_day.finalized == ctx.auction_day.finalized,
    decreases n,
{
    if n > 0 {
        lemma_batch_keeps_escrow_surplus(ctx, bidders, (n - 1) as nat);
    }
}

/// What the losers who are yet to be paid hold together: the amounts on
/// the receipts that are not refunded and not the winner's.
pub open spec fn owed(book: Seq<BidReceipt>, winner: Identity) -> int
    decreases book.len(),
{
    if book.len() == 0 {
        0
    } else {
        owed(book.drop_last(), winner) + if !book.last().refunded && book.last().bidder
            != winner {
            book.last().amount as int
        } else {
            0
        }
    }
}

/// How many losers are paid: the receipts that are marked refunded and
/// not the winner's.
pub open spec fn paid(book: Seq<BidReceipt>, winner: Identity) -> int
    decreases book.len(),
{
    if book.len() == 0 {
        0
    } else {
        paid(book.drop_last(), winner) + if book.last().refunded && book.last().bidder != winner {
            1int
        } else {
            0
        }
    }
}

/// The receipt once it is marked refunded.
pub open spec fn marked(receipt: BidReceipt) -> BidReceipt {
    RefundAction::Retired.written(receipt)
}

/// The book once `action` is done for the receipt at place `k`.
pub open spec fn book_after_refund(book: Seq<BidReceipt>, k: int, action: RefundAction) -> Seq<
    BidReceipt,
> {
    book.update(k, action.written(book[k]))
}

/// The record of a day with bids agrees with the book of its receipts
/// when it counts one bidder for each receipt, its total is what the
/// receipts hold together, and the receipt at place `w`, and no other, is
/// the winner's and holds the highest bid.
pub open spec fn day_matches_book(day: AuctionDay, book: Seq<BidReceipt>, w: int) -> bool {
    &&& 0 <= w < book.len()
    &&& book.len() == day.bidder_count
    &&& escrowed(book) == day.total_bid_lamports
    &&& book[w].amount == day.highest_bid
    &&& forall|k: int| 0 <= k < book.len() ==> ((#[trigger] book[k]).bidder == day.winner) == (k == w)
}

/// The record of a settled day is in step with the book of its receipts
/// when its two pools together hold what the losers yet to be paid
/// escrowed, it has counted one refund for each loser paid, it expects one
/// refund for each receipt but one, and the receipt at place `w`, and no
/// other, is the winner's.
pub open spec fn refunds_in_step(day: AuctionDay, book: Seq<BidReceipt>, w: int) -> bool {
    &&& 0 <= w < book.len()
    &&& forall|k: int| 0 <= k < book.len() ==> ((#[trigger] book[k]).bidder == day.winner) == (k == w)
    &&& day.refund_pool_remaining + day.fee_pool_remaining == owed(book, day.winner)
    &&& day.refund_count_completed == paid(book, day.winner)
    &&& day.refund_count_total + 1 == book.len()
}

proof fn lemma_owed_update(book: Seq<BidReceipt>, winner: Identity, k: int)
    requires
        0 <= k < book.len(),
    ensures
        owed(book.update(k, marked(book[k])), winner) == owed(book, winner) - if !book[k].refunded
            && book[k].bidder != winner {
            book[k].amount as int
        } else {
            0
        },
    decreases book.len(),
{
    let updated = book.update(k, marked(book[k]));
    if k == book.len() - 1 {
        assert(updated.drop_last() =~= book.drop_last());
    } else {
        lemma_owed_update(book.drop_last(), winner, k);
        assert(updated.drop_last() =~= book.drop_last().update(k, marked(book[k])));
    }
}

proof fn lemma_paid_update(book: Seq<BidReceipt>, winner: Identity, k: int)
    requires
        0 <= k < book.len(),
    ensures
        paid(book.update(k, marked(book[k])), winner) == paid(book, winner) + if !book[k].refunded
            && book[k].bidder != winner {
            1int
        } else {
            0
        },
    decreases book.len(),
{
    let updated = book.update(k, marked(book[k]));
    if k == book.len() - 1 {
        assert(updated.drop_last() =~= book.drop_last());
    } else {
        lemma_paid_update(book.drop_last(), winner, k);
        assert(updated.drop_last() =~= book.drop_last().update(k, marked(book[k])));
    }
}

proof fn lemma_fresh_book(book: Seq<BidReceipt>, winner: Identity, w: int)
    requires
        forall|k: int| 0 <= k < book.len() ==> !(#[trigger] book[k]).refunded,
        forall|k: int| 0 <= k < book.len() ==> ((#[trigger] book[k]).bidder == winner) == (k == w),
    ensures
        paid(book, winner) == 0,
        owed(book, winner) == escrowed(book) - if 0 <= w < book.len() {
            book[w].amount as int
        } else {
            0
        },
    decreases book.len(),
{
    if book.len() > 0 {
        lemma_fresh_book(book.drop_last(), winner, w);
    }
}

proof fn lemma_paid_book(book: Seq<BidReceipt>, winner: Identity, w: int)
    requires
        forall|k: int| 0 <= k < book.len() && k != w ==> (#[trigger] book[k]).refunded,
        forall|k: int| 0 <= k < book.len() ==> ((#[trigger] book[k]).bidder == winner) == (k == w),
    ensures
        owed(book, winner) == 0,
        paid(book, winner) == book.len() - if 0 <= w < book.len() {
            1int
        } else {
            0
        },
    decreases book.len(),
{
    if book.len() > 0 {
        lemma_paid_book(book.drop_last(), winner, w);
    }
}

/// Settling a day with bids whose record agrees with the book of its
/// receipts, none of them refunded, leaves the record in step with the
/// book.
pub proof fn lemma_settlement_opens_refunds(
    ctx: SettleDay,
    day_index: i64,
    book: Seq<BidReceipt>,
    w: int,
)
    requires
        ctx.rejection(day_index) is None,
        ctx.auction_day.highest_bid != 0,
        day_matches_book(ctx.auction_day, book, w),
        forall|k: int| 0 <= k < book.len() ==> !(#[trigger] book[k]).refunded,
    ensures
        refunds_in_step(ctx.settled().auction_day, book, w),
{
    lemma_fresh_book(book, ctx.auction_day.winner, w);
}

/// An entry that is done for the receipt at place `k` of the book keeps
/// the record in step with the book.
pub proof fn lemma_refund_keeps_step(
    config: Config,
    auction_day_key: Identity,
    program_id: Identity,
    expected: Option<Seq<u8>>,
    progress: RefundProgress,
    entry: RefundEntry,
    book: Seq<BidReceipt>,
    w: int,
    k: int,
)
    requires
        refunds_in_step(progress.auction_day, book, w),
        0 <= k < book.len(),
        entry.receipt() == Some(book[k]),
        entry.outcome(config, auction_day_key, program_id, expected, progress) is Ok,
    ensures
        ({
            let done = entry.outcome(
                config,
                auction_day_key,
                program_id,
                expected,
                progress,
            )->Ok_0;
            refunds_in_step(done.0.auction_day, book_after_refund(book, k, done.1), w)
        }),
{
    let done = entry.outcome(config, auction_day_key, program_id, expected, progress)->Ok_0;
    let winner = progress.auction_day.winner;
    let after = book_after_refund(book, k, done.1);
    lemma_identity_by_bytes(book[k].bidder, entry.bidder);
    lemma_identity_by_bytes(entry.bidder, winner);
    if done.1.retires() {
        lemma_owed_update(book, winner, k);
        lemma_paid_update(book, winner, k);
        assert forall|j: int| 0 <= j < after.len() implies ((#[trigger] after[j]).bidder == winner)
            == (j == w) by {
            assert((book[j].bidder == winner) == (j == w));
        }
    } else {
        assert(after =~= book);
    }
}

/// Whether one of the first `n` entries of the batch retired the receipt at
/// place `k` of the book. `slots` gives, for each entry, the place of the
/// receipt that it is handed.
pub open spec fn retired_in_batch(
    ctx: RefundBatch,
    bidders: Seq<Identity>,
    slots: Seq<int>,
    n: nat,
    k: int,
) -> bool {
    exists|j: int| retired_at(ctx, bidders, slots, n, k, j)
}

/// Whether entry `j`, one of the first `n` of the batch, retired the
/// receipt at place `k` of the book.
pub open spec fn retired_at(
    ctx: RefundBatch,
    bidders: Seq<Identity>,
    slots: Seq<int>,
    n: nat,
    k: int,
    j: int,
) -> bool {
    &&& 0 <= j < n
    &&& slots[j] == k
    &&& ctx.run(bidders, n) matches Ok(done)
    &&& done.1[j].retires()
}

/// The book once the first `n` entries of the batch are done: the receipts
/// that they retired are marked refunded, the others are as they were.
pub open spec fn book_after_batch(
    ctx: RefundBatch,
    bidders: Seq<Identity>,
    book: Seq<BidReceipt>,
    slots: Seq<int>,
    n: nat,
) -> Seq<BidReceipt> {
    Seq::new(
        book.len(),
        |k: int|
            if retired_in_batch(ctx, bidders, slots, n, k) {
                marked(book[k])
            } else {
                book[k]
            },
    )
}

/// The batch is handed the receipts of the book: each entry the one at its
/// place, and two entries the same account exactly when their places are
/// the same.
pub open spec fn batch_addressed(
    ctx: RefundBatch,
    bidders: Seq<Identity>,
    book: Seq<BidReceipt>,
    slots: Seq<int>,
) -> bool {
    &&& slots.len() == bidders.len()
    &&& forall|i: int|
        0 <= i < bidders.len() ==> 0 <= #[trigger] slots[i] < book.len()
            && ctx.remaining_accounts@[2 * i].receipt == Some(book[slots[i]])
    &&& forall|i: int, j: int|
        0 <= j < i < bidders.len() ==> (#[trigger] slots[i] == #[trigger] slots[j]) == (
        ctx.remaining_accounts@[2 * i].key@ == ctx.remaining_accounts@[2 * j].key@)
}

/// A batch that is done on a record in step with the book of receipts that
/// it is handed leaves the record in step with the book, in which the
/// receipts that it retired are marked refunded.
pub proof fn lemma_batch_keeps_step(
    ctx: RefundBatch,
    bidders: Seq<Identity>,
    book: Seq<BidReceipt>,
    slots: Seq<int>,
    w: int,
    n: nat,
)
    requires
        refunds_in_step(ctx.auction_day, book, w),
        batch_addressed(ctx, bidders, book, slots),
        n <= bidders.len(),
        ctx.run(bidders, n) is Ok,
    ensures
        refunds_in_step(
            ctx.run(bidders, n)->Ok_0.0.auction_day,
            book_after_batch(ctx, bidders, book, slots, n),
            w,
        ),
        ctx.run(bidders, n)->Ok_0.1.len() == n,
    decreases n,
{
    let after = book_after_batch(ctx, bidders, book, slots, n);
    if n == 0 {
        assert forall|k: int| 0 <= k < book.len() implies !retired_in_batch(
            ctx,
            bidders,
            slots,
            n,
            k,
        ) by {
            assert forall|j: int| !retired_at(ctx, bidders, slots, n, k, j) by {}
        }
        assert(after =~= book);
    } else {
        let m = (n - 1) as nat;
        let i = n - 1;
        lemma_batch_keeps_step(ctx, bidders, book, slots, w, m);
        let before = ctx.run(bidders, m)->Ok_0;
        let done = ctx.run(bidders, n)->Ok_0;
        let prev = book_after_batch(ctx, bidders, book, slots, m);
        let entry = ctx.entry(bidders, before.1, i);
        let s = slots[i];
        let action = done.1[i];
        assert(done.1 == before.1.push(action));
        // The entry meets the receipt as the book holds it by now.
        if retired_before(ctx.remaining_accounts@, before.1, i) {
            let j = choose|j: int| retired_by(ctx.remaining_accounts@, before.1, i, j);
            assert(slots[i] == slots[j]);
            assert(retired_at(ctx, bidders, slots, m, s, j));
        }
        if retired_in_batch(ctx, bidders, slots, m, s) {
            let j = choose|j: int| retired_at(ctx, bidders, slots, m, s, j);
            assert(slots[i] == slots[j]);
            assert(retired_by(ctx.remaining_accounts@, before.1, i, j));
        }
        assert(entry.receipt() == Some(prev[s]));
        lemma_refund_keeps_step(
            ctx.config,
            ctx.auction_day_key,
            ctx.program_id,
            receipt_address(ctx.auction_day_key, bidders[i], ctx.program_id),
            before.0,
            entry,
            prev,
            w,
            s,
        );
        let stepped = book_after_refund(prev, s, action);
        assert forall|k: int| 0 <= k < book.len() implies after[k] == stepped[k] by {
            if retired_in_batch(ctx, bidders, slots, m, k) {
                let j = choose|j: int| retired_at(ctx, bidders, slots, m, k, j);
                assert(done.1[j] == before.1[j]);
                assert(retired_at(ctx, bidders, slots, n, k, j));
            }
            if retired_in_batch(ctx, bidders, slots, n, k) {
                let j = choose|j: int| retired_at(ctx, bidders, slots, n, k, j);
                if j < i {
                    assert(done.1[j] == before.1[j]);
                    assert(retired_at(ctx, bidders, slots, m, k, j));
                }
            }
            if k == s && action.retires() {
                assert(retired_at(ctx, bidders, slots, n, k, i));
            }
        }
        assert(after =~= stepped);
    }
}

/// Completion: once every loser's receipt is marked refunded, on a record
/// in step with the book, both pools are empty and the refunds counted are
/// the refunds expected.
pub proof fn lemma_refunds_complete(day: AuctionDay, book: Seq<BidReceipt>, w: int)
    requires
        refunds_in_step(day, book, w),
        forall|k: int| 0 <= k < book.len() && k != w ==> (#[trigger] book[k]).refunded,
    ensures
        day.refund_pool_remaining == 0,
        day.fee_pool_remaining == 0,
        day.refund_count_completed == day.refund_count_total,
{
    lemma_paid_book(book, day.winner, w);
}

/// On a record in step with the book, the refunds counted never exceed the
/// refunds expected.
pub proof fn lemma_refunds_bounded(day: AuctionDay, book: Seq<BidReceipt>, w: int)
    requires
        refunds_in_step(day, book, w),
    ensures
        day.refund_count_completed <= day.refund_count_total,
{
    lemma_paid_bounded(book, day.winner, w);
}

proof fn lemma_paid_bounded(book: Seq<BidReceipt>, winner: Identity, w: int)
    requires
        forall|k: int| 0 <= k < book.len() ==> ((#[trigger] book[k]).bidder == winner) == (k == w),
    ensures
        0 <= paid(book, winner) <= book.len() - if 0 <= w < book.len() {
            1int
        } else {
            0
        },
    decreases book.len(),
{
    if book.len() > 0 {
        lemma_paid_bounded(book.drop_last(), winner, w);
    }
}

/// Whether the receipt at place `w` of the book is the winner's and holds
/// the highest bid.
pub open spec fn leads(day: AuctionDay, book: Seq<BidReceipt>, w: int) -> bool {
    &&& 0 <= w < book.len()
    &&& book[w].amount == day.highest_bid
    &&& book[w].bidder == day.winner
}

/// The record of an open day and the book of its receipts are in order
/// when the record counts one bidder for each receipt, its total is what
/// the receipts hold together, every receipt names a bidder of its own,
/// holds something and is yet to be refunded, and, unless the book is empty,
/// one of the receipts is the winner's and holds the highest bid.
pub open spec fn book_in_order(day: AuctionDay, book: Seq<BidReceipt>) -> bool {
    &&& book.len() == day.bidder_count
    &&& escrowed(book) == day.total_bid_lamports
    &&& forall|k: int|
        0 <= k < book.len() ==> !(#[trigger] book[k]).is_new() && !book[k].refunded && book[k].amount
            > 0
    &&& forall|j: int, k: int|
        0 <= j < k < book.len() ==> (#[trigger] book[j]).bidder != (#[trigger] book[k]).bidder
    &&& if book.len() == 0 {
        day.highest_bid == 0
    } else {
        exists|w: int| leads(day, book, w)
    }
}

/// The bid is handed the receipt that the ledger keeps for its bidder: the
/// one at its place in the book, or, where the book has none of this
/// bidder, a blank one.
pub open spec fn receipt_addressed(bid: Bid, book: Seq<BidReceipt>) -> bool {
    &&& bid.ctx.bidder@ != zero_bytes()
    &&& if bid.slot < book.len() {
        bid.ctx.bid_receipt == book[bid.slot as int]
    } else {
        &&& bid.ctx.bid_receipt.is_new()
        &&& bid.ctx.bid_receipt.amount == 0
        &&& forall|k: int| 0 <= k < book.len() ==> (#[trigger] book[k]).bidder != bid.ctx.bidder
    }
}

/// Bid `i` is handed the receipt that the ledger keeps for its bidder.
pub open spec fn receipt_addressed_at(bids: Seq<Bid>, i: int) -> bool {
    receipt_addressed(bids[i], book_after(bids, i as nat))
}

/// Every one of `bids` is handed the receipt that the ledger keeps for its
/// bidder.
pub open spec fn receipts_addressed(bids: Seq<Bid>) -> bool {
    forall|i: int| 0 <= i < bids.len() ==> #[trigger] receipt_addressed_at(bids, i)
}

/// An accepted bid that is handed the receipt kept for its bidder leaves
/// the record and the book in order.
pub proof fn lemma_bid_keeps_book(bid: Bid, book: Seq<BidReceipt>)
    requires
        book_in_order(bid.ctx.auction_day, book),
        bid.is_accepted(),
        receipt_addressed(bid, book),
    ensures
        book_in_order(bid.day_after(), book_with(book, bid)),
{
    let before = bid.ctx.auction_day;
    let after = bid.day_after();
    let next = book_with(book, bid);
    let receipt = bid.receipt_after();
    reveal(Bid::is_accepted);
    lemma_bid_leads_or_stands(bid);
    lemma_identity_by_bytes(bid.ctx.bid_receipt.bidder, bid.ctx.bidder);
    if bid.slot < book.len() {
        let s = bid.slot as int;
        lemma_escrowed_update(book, s, receipt);
        assert(!book[s].is_new());
        assert(receipt.bidder == book[s].bidder);
        assert forall|k: int| 0 <= k < next.len() implies (#[trigger] next[k]).bidder
            == book[k].bidder && !next[k].is_new() && !next[k].refunded && next[k].amount > 0 by {
            assert(!book[k].is_new());
        }
        assert forall|j: int, k: int| 0 <= j < k < next.len() implies (#[trigger] next[j]).bidder
            != (#[trigger] next[k]).bidder by {
            assert(book[j].bidder != book[k].bidder);
        }
        let w = choose|w: int| leads(before, book, w);
        if bid.new_amount > before.highest_bid {
            assert(leads(after, next, s));
        } else {
            assert(s != w);
            assert(leads(after, next, w));
        }
    } else {
        lemma_escrowed_push(book, receipt);
        assert forall|j: int, k: int| 0 <= j < k < next.len() implies (#[trigger] next[j]).bidder
            != (#[trigger] next[k]).bidder by {
            if k < book.len() {
                assert(book[j].bidder != book[k].bidder);
            } else {
                assert(book[j].bidder != bid.ctx.bidder);
            }
        }
        if bid.new_amount > before.highest_bid {
            assert(leads(after, next, book.len() as int));
        } else {
            let w = choose|w: int| leads(before, book, w);
            assert(leads(after, next, w));
        }
    }
}

/// Over any run of accepted bids on a day that had none before, each handed
/// the receipt kept for its bidder, the record and the book stay in order.
pub proof fn lemma_bids_keep_book(start: AuctionDay, bids: Seq<Bid>, n: nat)
    requires
        start.highest_bid == 0,
        start.bidder_count == 0,
        start.total_bid_lamports == 0,
        n <= bids.len(),
        accepted_bids(start, bids),
        receipts_addressed(bids),
    ensures
        book_in_order(day_after(start, bids, n as int), book_after(bids, n)),
    decreases n,
{
    if n > 0 {
        lemma_bids_keep_book(start, bids, (n - 1) as nat);
        let bid = bids[n - 1];
        assert(bid_follows(start, bids, n - 1));
        assert(receipt_addressed_at(bids, n - 1));
        lemma_bid_keeps_book(bid, book_after(bids, (n - 1) as nat));
    }
}

/// A record and a book in order, with at least one receipt, agree as a
/// settlement asks: some place holds the winner's receipt, and no other
/// does.
pub proof fn lemma_book_in_order_matches(day: AuctionDay, book: Seq<BidReceipt>) -> (w: int)
    requires
        book_in_order(day, book),
        book.len() > 0,
    ensures
        day_matches_book(day, book, w),
{
    let w = choose|w: int| leads(day, book, w);
    assert forall|k: int| 0 <= k < book.len() implies ((#[trigger] book[k]).bidder == day.winner)
        == (k == w) by {
        if k < w {
            assert(book[k].bidder != book[w].bidder);
        } else if w < k {
            assert(book[w].bidder != book[k].bidder);
        }
    }
    w
}

/// From settlement to completion: on a day with bids whose record and book
/// are in order, a settlement followed by a batch that is done and leaves
/// every loser's receipt marked refunded empties both pools and completes
/// the refunds expected.
pub proof fn lemma_settled_day_completes(
    settle: SettleDay,
    day_index: i64,
    book: Seq<BidReceipt>,
    ctx: RefundBatch,
    bidders: Seq<Identity>,
    slots: Seq<int>,
)
    requires
        book.len() > 0,
        book_in_order(settle.auction_day, book),
        settle.rejection(day_index) is None,
        ctx.auction_day == settle.settled().auction_day,
        batch_addressed(ctx, bidders, book, slots),
        ctx.run(bidders, bidders.len()) is Ok,
        forall|k: int|
            0 <= k < book.len() && (#[trigger] book[k]).bidder != settle.auction_day.winner
                ==> retired_in_batch(ctx, bidders, slots, bidders.len(), k),
    ensures
        ({
            let day = ctx.run(bidders, bidders.len())->Ok_0.0.auction_day;
            &&& day.finalized
            &&& day.refund_pool_remaining == 0
            &&& day.fee_pool_remaining == 0
            &&& day.refund_count_completed == day.refund_count_total
        }),
{
    let w = lemma_book_in_order_matches(settle.auction_day, book);
    assert(book[w].amount > 0);
    lemma_settlement_opens_refunds(settle, day_index, book, w);
    lemma_batch_keeps_step(ctx, bidders, book, slots, w, bidders.len());
    lemma_batch_keeps_escrow_surplus(ctx, bidders, bidders.len());
    let done = ctx.run(bidders, bidders.len())->Ok_0;
    let after = book_after_batch(ctx, bidders, book, slots, bidders.len());
    assert forall|k: int| 0 <= k < after.len() && k != w implies (#[trigger] after[k]).refunded by {
        assert(book[k].bidder != settle.auction_day.winner);
    }
    lemma_refunds_complete(done.0.auction_day, after, w);
}

} // verus!
