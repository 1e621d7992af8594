use anchor_lang::prelude::Pubkey;
use anchor_lang::solana_program::system_program;
use auction::address::is_custody_authority;
use auction::{
    current_day_index, derive_receipt_address, init_config, init_day, is_uninitialized_auction_day,
    place_bid, refund_batch, refund_entry, settle_day, AuctionDay, BidReceipt, Config, DayPhase,
    ErrorCode,
    Identity, InitConfig, InitDay, PlaceBid, RefundAction, RefundBatch, RefundEntry,
    RefundProgress, RemainingAccount, SettleDay,
};

const DAY: i64 = 20_000;
const NOON: i64 = DAY * 86_400 + 43_200;

fn id(n: u8) -> Identity {
    Identity::new([n; 32])
}

fn custody() -> Identity {
    Identity::zero()
}

fn program() -> Identity {
    id(77)
}

fn day_key() -> Identity {
    id(200)
}

fn blank_day() -> AuctionDay {
    AuctionDay {
        day_index: 0,
        finalized: false,
        winner: Identity::zero(),
        highest_bid: 0,
        bidder_count: 0,
        refund_count_total: 0,
        refund_count_completed: 0,
        total_bid_lamports: 0,
        refund_pool_remaining: 0,
        fee_pool_remaining: 0,
        vault_bump: 0,
    }
}

fn blank_receipt() -> BidReceipt {
    BidReceipt { auction_day: Identity::zero(), bidder: Identity::zero(), amount: 0, refunded: false }
}

fn config(loser_fee: u64, min_increment: u64) -> Config {
    init_config(InitConfig { bump: 254 }, id(9), loser_fee, min_increment).unwrap()
}

fn bid_ctx(cfg: Config, day: AuctionDay, receipt: BidReceipt, bidder: Identity) -> PlaceBid {
    PlaceBid {
        bidder,
        config: cfg,
        auction_day_key: day_key(),
        auction_day: day,
        vault_owner: custody(),
        vault_bump: 251,
        bid_receipt: receipt,
        unix_timestamp: NOON,
    }
}

fn settle_ctx(cfg: Config, day: AuctionDay, vault_lamports: u64, now: i64) -> SettleDay {
    SettleDay {
        config: cfg,
        auction_day: day,
        vault_owner: custody(),
        vault_lamports,
        recipient: id(9),
        unix_timestamp: now,
    }
}

fn receipt_key(bidder: Identity) -> Identity {
    derive_receipt_address(&day_key(), &bidder, &program()).unwrap()
}

fn receipt_account(bidder: Identity, receipt: BidReceipt) -> RemainingAccount {
    RemainingAccount { key: receipt_key(bidder), owner: program(), receipt: Some(receipt) }
}

fn wallet(bidder: Identity) -> RemainingAccount {
    RemainingAccount { key: bidder, owner: custody(), receipt: None }
}

fn batch_ctx(
    cfg: Config,
    day: AuctionDay,
    vault_lamports: u64,
    accounts: Vec<RemainingAccount>,
) -> RefundBatch {
    RefundBatch {
        config: cfg,
        auction_day_key: day_key(),
        auction_day: day,
        vault_owner: custody(),
        vault_lamports,
        program_id: program(),
        remaining_accounts: accounts,
    }
}

/// Three bidders: C bids 200, B bids 300, A bids 500. Returns the day and
/// the receipts of A, B and C.
fn three_bidders(cfg: Config) -> (AuctionDay, BidReceipt, BidReceipt, BidReceipt) {
    let c = place_bid(bid_ctx(cfg, blank_day(), blank_receipt(), id(3)), DAY, 200).unwrap();
    let b = place_bid(bid_ctx(cfg, c.auction_day, blank_receipt(), id(2)), DAY, 300).unwrap();
    let a = place_bid(bid_ctx(cfg, b.auction_day, blank_receipt(), id(1)), DAY, 500).unwrap();
    (a.auction_day, a.bid_receipt, b.bid_receipt, c.bid_receipt)
}

#[test]
fn day_index_is_time_over_day_length() {
    assert_eq!(current_day_index(0), 0);
    assert_eq!(current_day_index(86_399), 0);
    assert_eq!(current_day_index(86_400), 1);
    assert_eq!(current_day_index(NOON), DAY);
    assert_eq!(current_day_index(-1), 0);
    assert_eq!(current_day_index(-86_400), -1);
    assert_eq!(current_day_index(-86_401), -1);
    assert_eq!(current_day_index(i64::MAX), i64::MAX / 86_400);
    assert_eq!(current_day_index(i64::MIN), i64::MIN / 86_400);
}

#[test]
fn identity_compares_by_bytes() {
    let mut bytes = [7u8; 32];
    assert!(Identity::new(bytes).same(&id(7)));
    bytes[31] = 8;
    assert!(!Identity::new(bytes).same(&id(7)));
    assert!(Identity::zero().is_zero());
    assert!(!id(1).is_zero());
    assert_eq!(id(5).to_bytes(), [5u8; 32]);
}

#[test]
fn blank_record_is_uninitialized() {
    assert!(is_uninitialized_auction_day(&blank_day()));
    let mut day = blank_day();
    day.vault_bump = 9;
    assert!(is_uninitialized_auction_day(&day));
    day.bidder_count = 1;
    assert!(!is_uninitialized_auction_day(&day));
    let mut day = blank_day();
    day.winner = id(1);
    assert!(!is_uninitialized_auction_day(&day));
}

#[test]
fn init_config_stores_parameters() {
    let cfg = init_config(InitConfig { bump: 3 }, id(9), 50, 100).unwrap();
    assert_eq!(
        cfg,
        Config { recipient_pubkey: id(9), loser_fee_lamports: 50, min_increment_lamports: 100, bump: 3 }
    );
}

#[test]
fn init_day_opens_blank_record() {
    let ctx = InitDay {
        auction_day: blank_day(),
        vault_owner: custody(),
        vault_bump: 250,
        unix_timestamp: NOON,
    };
    let day = init_day(ctx, DAY + 2).unwrap();
    assert_eq!(day.day_index, DAY + 2);
    assert_eq!(day.vault_bump, 250);
    assert!(!day.finalized);
    assert_eq!(day.bidder_count, 0);
}

#[test]
fn init_day_keeps_populated_record() {
    let cfg = config(50, 100);
    let (day, _, _, _) = three_bidders(cfg);
    let ctx = InitDay { auction_day: day, vault_owner: custody(), vault_bump: 1, unix_timestamp: NOON };
    assert_eq!(init_day(ctx, DAY), Ok(day));
}

#[test]
fn init_day_rejects_far_future() {
    let ctx = InitDay {
        auction_day: blank_day(),
        vault_owner: custody(),
        vault_bump: 250,
        unix_timestamp: NOON,
    };
    assert_eq!(init_day(ctx, DAY + 3), Err(ErrorCode::DayTooFarAhead));
    assert!(init_day(ctx, DAY - 40).is_ok());
}

#[test]
fn init_day_rejects_foreign_vault_owner() {
    let ctx = InitDay {
        auction_day: blank_day(),
        vault_owner: id(66),
        vault_bump: 250,
        unix_timestamp: NOON,
    };
    assert_eq!(init_day(ctx, DAY), Err(ErrorCode::InvalidVaultOwner));
}

#[test]
fn first_bid_below_minimum_fails() {
    let cfg = config(50, 100);
    let r = place_bid(bid_ctx(cfg, blank_day(), blank_receipt(), id(1)), DAY, 50);
    assert_eq!(r, Err(ErrorCode::BidTooLow));
}

#[test]
fn second_bid_must_clear_increment() {
    let cfg = config(50, 100);
    let first = place_bid(bid_ctx(cfg, blank_day(), blank_receipt(), id(1)), DAY, 100).unwrap();
    assert_eq!(first.auction_day.highest_bid, 100);
    assert_eq!(first.auction_day.winner, id(1));
    assert_eq!(first.auction_day.bidder_count, 1);
    assert_eq!(first.auction_day.day_index, DAY);
    assert_eq!(first.auction_day.vault_bump, 251);
    assert_eq!(first.transfer_lamports, 100);
    assert_eq!(
        first.bid_receipt,
        BidReceipt { auction_day: day_key(), bidder: id(1), amount: 100, refunded: false }
    );
    let low = place_bid(bid_ctx(cfg, first.auction_day, blank_receipt(), id(2)), DAY, 150);
    assert_eq!(low, Err(ErrorCode::BidTooLow));
    let second = place_bid(bid_ctx(cfg, first.auction_day, blank_receipt(), id(2)), DAY, 200).unwrap();
    assert_eq!(second.auction_day.highest_bid, 200);
    assert_eq!(second.auction_day.winner, id(2));
    assert_eq!(second.auction_day.bidder_count, 2);
    assert_eq!(second.auction_day.total_bid_lamports, 300);
}

#[test]
fn raise_moves_only_the_difference() {
    let cfg = config(50, 100);
    let first = place_bid(bid_ctx(cfg, blank_day(), blank_receipt(), id(1)), DAY, 100).unwrap();
    let second = place_bid(bid_ctx(cfg, first.auction_day, blank_receipt(), id(2)), DAY, 200).unwrap();
    let raise = place_bid(bid_ctx(cfg, second.auction_day, first.bid_receipt, id(1)), DAY, 350).unwrap();
    assert_eq!(raise.transfer_lamports, 250);
    assert_eq!(raise.bid_receipt.amount, 350);
    assert_eq!(raise.auction_day.total_bid_lamports, 550);
    assert_eq!(raise.auction_day.bidder_count, 2);
    assert_eq!(raise.auction_day.highest_bid, 350);
    assert_eq!(raise.auction_day.winner, id(1));
}

#[test]
fn bid_errors() {
    let cfg = config(50, 100);
    let fresh = bid_ctx(cfg, blank_day(), blank_receipt(), id(1));
    assert_eq!(place_bid(fresh, DAY, 0), Err(ErrorCode::InvalidBidAmount));
    assert_eq!(place_bid(fresh, DAY + 1, 100), Err(ErrorCode::WrongDay));
    let mut foreign = fresh;
    foreign.vault_owner = id(5);
    assert_eq!(place_bid(foreign, DAY, 100), Err(ErrorCode::InvalidVaultOwner));

    let first = place_bid(fresh, DAY, 100).unwrap();
    let mut closed = first.auction_day;
    closed.finalized = true;
    assert_eq!(
        place_bid(bid_ctx(cfg, closed, blank_receipt(), id(2)), DAY, 500),
        Err(ErrorCode::AlreadyFinalized)
    );
    // A receipt that belongs to somebody else.
    assert_eq!(
        place_bid(bid_ctx(cfg, first.auction_day, first.bid_receipt, id(2)), DAY, 500),
        Err(ErrorCode::BidderMismatch)
    );
    // A bidder may only raise their own bid.
    let free = config(50, 0);
    let mut own = first.bid_receipt;
    own.amount = 700;
    assert_eq!(
        place_bid(bid_ctx(free, first.auction_day, own, id(1)), DAY, 700),
        Err(ErrorCode::BidDecrease)
    );
    // Overflow of the required minimum.
    let mut high = first.auction_day;
    high.highest_bid = u64::MAX - 10;
    assert_eq!(
        place_bid(bid_ctx(cfg, high, blank_receipt(), id(2)), DAY, u64::MAX),
        Err(ErrorCode::MathOverflow)
    );
    // Overflow of the bidder count.
    let mut crowded = first.auction_day;
    crowded.bidder_count = u32::MAX;
    assert_eq!(
        place_bid(bid_ctx(cfg, crowded, blank_receipt(), id(2)), DAY, 500),
        Err(ErrorCode::MathOverflow)
    );
    // Overflow of the running total.
    let mut full = first.auction_day;
    full.total_bid_lamports = u64::MAX - 10;
    assert_eq!(
        place_bid(bid_ctx(cfg, full, blank_receipt(), id(2)), DAY, 500),
        Err(ErrorCode::MathOverflow)
    );
}

#[test]
fn highest_bid_is_maximum_and_total_is_sum_of_receipts() {
    let cfg = config(50, 100);
    let (day, a, b, c) = three_bidders(cfg);
    assert_eq!(day.highest_bid, 500);
    assert_eq!(day.winner, id(1));
    assert_eq!(day.bidder_count, 3);
    assert_eq!(day.total_bid_lamports, a.amount + b.amount + c.amount);
    let raise = place_bid(bid_ctx(cfg, day, c, id(3)), DAY, 900).unwrap();
    assert_eq!(raise.auction_day.highest_bid, 900);
    assert_eq!(raise.auction_day.winner, id(3));
    assert_eq!(raise.auction_day.total_bid_lamports, 500 + 300 + 900);
}

#[test]
fn settlement_splits_pools() {
    let cfg = config(50, 100);
    let (day, _, _, _) = three_bidders(cfg);
    let s = settle_day(settle_ctx(cfg, day, 1000, NOON + 86_400), DAY).unwrap();
    assert!(s.auction_day.finalized);
    assert_eq!(s.payout_lamports, 500);
    assert_eq!(s.auction_day.fee_pool_remaining, 100);
    assert_eq!(s.auction_day.refund_pool_remaining, 400);
    assert_eq!(s.auction_day.refund_count_total, 2);
    assert_eq!(s.auction_day.refund_count_completed, 0);
    assert_eq!(
        s.auction_day.refund_pool_remaining + s.auction_day.fee_pool_remaining,
        day.total_bid_lamports - day.highest_bid
    );
}

#[test]
fn settlement_too_early() {
    let cfg = config(50, 100);
    let (day, _, _, _) = three_bidders(cfg);
    assert_eq!(settle_day(settle_ctx(cfg, day, 1000, NOON), DAY), Err(ErrorCode::TooEarly));
    assert_eq!(
        settle_day(settle_ctx(cfg, day, 1000, DAY * 86_400 + 86_399), DAY),
        Err(ErrorCode::TooEarly)
    );
    assert!(settle_day(settle_ctx(cfg, day, 1000, (DAY + 1) * 86_400), DAY).is_ok());
}

#[test]
fn settlement_without_bids_moves_nothing() {
    let cfg = config(50, 100);
    let open = init_day(
        InitDay { auction_day: blank_day(), vault_owner: custody(), vault_bump: 1, unix_timestamp: NOON },
        DAY,
    )
    .unwrap();
    let s = settle_day(settle_ctx(cfg, open, 0, NOON + 86_400), DAY).unwrap();
    assert!(s.auction_day.finalized);
    assert_eq!(s.payout_lamports, 0);
    assert_eq!(s.auction_day.refund_pool_remaining, 0);
    assert_eq!(s.auction_day.fee_pool_remaining, 0);
    assert_eq!(s.auction_day.refund_count_total, 0);
}

#[test]
fn settlement_errors() {
    let cfg = config(50, 100);
    let (day, _, _, _) = three_bidders(cfg);
    let later = NOON + 86_400;
    let mut closed = day;
    closed.finalized = true;
    assert_eq!(settle_day(settle_ctx(cfg, closed, 1000, later), DAY), Err(ErrorCode::AlreadyFinalized));
    assert_eq!(settle_day(settle_ctx(cfg, day, 1000, later), DAY - 1), Err(ErrorCode::DayMismatch));
    let mut foreign = settle_ctx(cfg, day, 1000, later);
    foreign.vault_owner = id(4);
    assert_eq!(settle_day(foreign, DAY), Err(ErrorCode::InvalidVaultOwner));
    let mut nobody = day;
    nobody.bidder_count = 0;
    assert_eq!(settle_day(settle_ctx(cfg, nobody, 1000, later), DAY), Err(ErrorCode::BidderCountMismatch));
    let mut short = day;
    short.total_bid_lamports = 499;
    assert_eq!(settle_day(settle_ctx(cfg, short, 1000, later), DAY), Err(ErrorCode::MathOverflow));
    let greedy = config(u64::MAX, 100);
    assert_eq!(settle_day(settle_ctx(greedy, day, 1000, later), DAY), Err(ErrorCode::MathOverflow));
    let dear = config(251, 100);
    assert_eq!(settle_day(settle_ctx(dear, day, 1000, later), DAY), Err(ErrorCode::FeePoolTooLarge));
    assert_eq!(
        settle_day(settle_ctx(cfg, day, 999, later), DAY),
        Err(ErrorCode::InsufficientVaultLamports)
    );
    let mut stranger = settle_ctx(cfg, day, 1000, later);
    stranger.recipient = id(10);
    assert_eq!(settle_day(stranger, DAY), Err(ErrorCode::RecipientMismatch));
}

#[test]
fn receipt_address_is_the_derived_one() {
    let expected = Pubkey::find_program_address(
        &[b"bid_receipt", &[200u8; 32], &[1u8; 32]],
        &Pubkey::new_from_array([77u8; 32]),
    )
    .0;
    let found = receipt_key(id(1));
    assert_eq!(found.to_bytes(), expected.to_bytes());
    assert_ne!(found, id(1));
    assert_ne!(found, day_key());
    assert_ne!(found, program());
    assert_ne!(receipt_key(id(2)), found);
}

#[test]
fn refunds_pay_losers_and_retire_winner() {
    let cfg = config(50, 100);
    let (day, a, b, c) = three_bidders(cfg);
    let settled = settle_day(settle_ctx(cfg, day, 1000, NOON + 86_400), DAY).unwrap();
    let accounts = vec![
        receipt_account(id(1), a),
        wallet(id(1)),
        receipt_account(id(2), b),
        wallet(id(2)),
        receipt_account(id(3), c),
        wallet(id(3)),
    ];
    let out = refund_batch(
        batch_ctx(cfg, settled.auction_day, 500, accounts),
        DAY,
        vec![id(1), id(2), id(3)],
    )
    .unwrap();
    assert_eq!(
        out.actions,
        vec![
            RefundAction::Retired,
            RefundAction::Paid { refund_lamports: 250, fee_lamports: 50 },
            RefundAction::Paid { refund_lamports: 150, fee_lamports: 50 },
        ]
    );
    assert_eq!(out.auction_day.refund_pool_remaining, 0);
    assert_eq!(out.auction_day.fee_pool_remaining, 0);
    assert_eq!(out.vault_lamports, 0);
    assert_eq!(out.auction_day.refund_count_total, 2);
    assert_eq!(out.auction_day.refund_count_completed, 2);
}

#[test]
fn losers_alone_complete_the_refunds() {
    let cfg = config(50, 100);
    let (day, _, b, c) = three_bidders(cfg);
    let settled = settle_day(settle_ctx(cfg, day, 1000, NOON + 86_400), DAY).unwrap();
    let first = refund_batch(
        batch_ctx(cfg, settled.auction_day, 500, vec![receipt_account(id(2), b), wallet(id(2))]),
        DAY,
        vec![id(2)],
    )
    .unwrap();
    assert_eq!(first.auction_day.refund_count_completed, 1);
    assert_eq!(first.auction_day.refund_pool_remaining, 150);
    assert_eq!(first.auction_day.fee_pool_remaining, 50);
    let second = refund_batch(
        batch_ctx(cfg, first.auction_day, first.vault_lamports, vec![receipt_account(id(3), c), wallet(id(3))]),
        DAY,
        vec![id(3)],
    )
    .unwrap();
    assert_eq!(second.auction_day.refund_count_completed, second.auction_day.refund_count_total);
    assert_eq!(second.auction_day.refund_pool_remaining, 0);
    assert_eq!(second.auction_day.fee_pool_remaining, 0);
}

#[test]
fn refunded_receipt_is_skipped() {
    let cfg = config(50, 100);
    let (day, _, b, _) = three_bidders(cfg);
    let settled = settle_day(settle_ctx(cfg, day, 1000, NOON + 86_400), DAY).unwrap();
    let mut done = b;
    done.refunded = true;
    let out = refund_batch(
        batch_ctx(cfg, settled.auction_day, 500, vec![receipt_account(id(2), done), wallet(id(2))]),
        DAY,
        vec![id(2)],
    )
    .unwrap();
    assert_eq!(out.actions, vec![RefundAction::Skipped]);
    assert_eq!(out.auction_day, settled.auction_day);
    assert_eq!(out.vault_lamports, 500);
}

#[test]
fn bidder_listed_twice_is_paid_once() {
    let cfg = config(50, 100);
    let (day, _, b, _) = three_bidders(cfg);
    let settled = settle_day(settle_ctx(cfg, day, 1000, NOON + 86_400), DAY).unwrap();
    let accounts = vec![
        receipt_account(id(2), b),
        wallet(id(2)),
        receipt_account(id(2), b),
        wallet(id(2)),
    ];
    let out = refund_batch(batch_ctx(cfg, settled.auction_day, 500, accounts), DAY, vec![id(2), id(2)])
        .unwrap();
    assert_eq!(
        out.actions,
        vec![RefundAction::Paid { refund_lamports: 250, fee_lamports: 50 }, RefundAction::Skipped]
    );
    assert_eq!(out.auction_day.refund_count_completed, 1);
    assert_eq!(out.vault_lamports, 200);
}

#[test]
fn identity_mismatch_fails_whole_batch() {
    let cfg = config(50, 100);
    let (day, _, b, c) = three_bidders(cfg);
    let settled = settle_day(settle_ctx(cfg, day, 1000, NOON + 86_400), DAY).unwrap();
    // The second entry pairs bidder 3 with a receipt that names bidder 2.
    let mut forged = c;
    forged.bidder = id(2);
    let accounts = vec![
        receipt_account(id(2), b),
        wallet(id(2)),
        receipt_account(id(3), forged),
        wallet(id(3)),
    ];
    let r = refund_batch(batch_ctx(cfg, settled.auction_day, 500, accounts), DAY, vec![id(2), id(3)]);
    assert_eq!(r, Err(ErrorCode::BidderMismatch));
    // The account handed in for the bidder is somebody else's.
    let accounts = vec![receipt_account(id(2), b), wallet(id(2)), receipt_account(id(3), c), wallet(id(4))];
    let r = refund_batch(batch_ctx(cfg, settled.auction_day, 500, accounts), DAY, vec![id(2), id(3)]);
    assert_eq!(r, Err(ErrorCode::BidderMismatch));
}

#[test]
fn batch_errors() {
    let cfg = config(50, 100);
    let (day, _, b, _) = three_bidders(cfg);
    let settled = settle_day(settle_ctx(cfg, day, 1000, NOON + 86_400), DAY).unwrap().auction_day;
    let good = vec![receipt_account(id(2), b), wallet(id(2))];
    let list = vec![id(2)];
    assert_eq!(
        refund_batch(batch_ctx(cfg, day, 500, good.clone()), DAY, list.clone()),
        Err(ErrorCode::NotFinalized)
    );
    assert_eq!(
        refund_batch(batch_ctx(cfg, settled, 500, good.clone()), DAY + 1, list.clone()),
        Err(ErrorCode::DayMismatch)
    );
    let mut foreign = batch_ctx(cfg, settled, 500, good.clone());
    foreign.vault_owner = id(1);
    assert_eq!(refund_batch(foreign, DAY, list.clone()), Err(ErrorCode::InvalidVaultOwner));
    assert_eq!(
        refund_batch(batch_ctx(cfg, settled, 500, vec![good[0]]), DAY, list.clone()),
        Err(ErrorCode::InvalidRemainingAccounts)
    );
    // The receipt is not at the derived address.
    let mut moved = good.clone();
    moved[0].key = id(50);
    assert_eq!(
        refund_batch(batch_ctx(cfg, settled, 500, moved), DAY, list.clone()),
        Err(ErrorCode::BidReceiptMismatch)
    );
    let mut owned = good.clone();
    owned[0].owner = id(51);
    assert_eq!(
        refund_batch(batch_ctx(cfg, settled, 500, owned), DAY, list.clone()),
        Err(ErrorCode::BidReceiptOwnerMismatch)
    );
    let mut unreadable = good.clone();
    unreadable[0].receipt = None;
    assert_eq!(
        refund_batch(batch_ctx(cfg, settled, 500, unreadable), DAY, list.clone()),
        Err(ErrorCode::BidReceiptUnreadable)
    );
    let mut other_day = good.clone();
    other_day[0].receipt = Some(BidReceipt { auction_day: id(201), ..b });
    assert_eq!(
        refund_batch(batch_ctx(cfg, settled, 500, other_day), DAY, list.clone()),
        Err(ErrorCode::BidReceiptMismatch)
    );
    let mut small = good.clone();
    small[0].receipt = Some(BidReceipt { amount: 50, ..b });
    assert_eq!(
        refund_batch(batch_ctx(cfg, settled, 500, small), DAY, list.clone()),
        Err(ErrorCode::InvalidBidAmount)
    );
    let mut dry = settled;
    dry.refund_pool_remaining = 249;
    assert_eq!(
        refund_batch(batch_ctx(cfg, dry, 500, good.clone()), DAY, list.clone()),
        Err(ErrorCode::InsufficientRefundPool)
    );
    let mut unpaid = settled;
    unpaid.fee_pool_remaining = 49;
    assert_eq!(
        refund_batch(batch_ctx(cfg, unpaid, 500, good.clone()), DAY, list.clone()),
        Err(ErrorCode::InsufficientFeePool)
    );
    assert_eq!(
        refund_batch(batch_ctx(cfg, settled, 299, good.clone()), DAY, list.clone()),
        Err(ErrorCode::InsufficientVaultLamports)
    );
    let mut counted = settled;
    counted.refund_count_completed = u32::MAX;
    assert_eq!(
        refund_batch(batch_ctx(cfg, counted, 500, good), DAY, list),
        Err(ErrorCode::MathOverflow)
    );
}

#[test]
fn refund_entry_on_given_address() {
    let cfg = config(50, 100);
    let (day, _, b, _) = three_bidders(cfg);
    let settled = settle_day(settle_ctx(cfg, day, 1000, NOON + 86_400), DAY).unwrap().auction_day;
    let entry = RefundEntry {
        bidder: id(2),
        receipt_account: RemainingAccount { key: id(40), owner: program(), receipt: Some(b) },
        bidder_account: wallet(id(2)),
        retired_earlier: false,
    };
    let progress = RefundProgress { auction_day: settled, vault_lamports: 500 };
    let done = refund_entry(&cfg, &day_key(), &program(), Some(id(40)), progress, &entry).unwrap();
    assert_eq!(done.1, RefundAction::Paid { refund_lamports: 250, fee_lamports: 50 });
    assert_eq!(done.0.vault_lamports, 200);
    assert_eq!(done.0.auction_day.refund_pool_remaining, 150);
    assert_eq!(done.0.auction_day.fee_pool_remaining, 50);
    assert_eq!(done.0.auction_day.refund_count_completed, 1);
    assert_eq!(
        refund_entry(&cfg, &day_key(), &program(), Some(id(41)), progress, &entry),
        Err(ErrorCode::BidReceiptMismatch)
    );
    assert_eq!(
        refund_entry(&cfg, &day_key(), &program(), None, progress, &entry),
        Err(ErrorCode::BidReceiptMismatch)
    );
    let again = RefundEntry { retired_earlier: true, ..entry };
    assert_eq!(
        refund_entry(&cfg, &day_key(), &program(), Some(id(40)), progress, &again),
        Ok((progress, RefundAction::Skipped))
    );
}

#[test]
fn custody_authority_is_the_system_program() {
    assert!(is_custody_authority(&Identity::new(system_program::ID.to_bytes())));
    assert!(is_custody_authority(&Identity::zero()));
    assert!(!is_custody_authority(&id(1)));
}

#[test]
fn refusals_have_messages() {
    assert_eq!(ErrorCode::BidTooLow.message(), "Bid does not meet minimum increment");
    assert_eq!(ErrorCode::TooEarly.message(), "Settlement too early");
    assert_eq!(ErrorCode::MathOverflow.message(), "Math overflow");
    assert_eq!(ErrorCode::BidReceiptUnreadable.message(), "Bid receipt does not decode");
    assert_eq!(ErrorCode::InvalidVaultOwner.message(), "Vault is not owned by the system program");
}

#[test]
fn record_sizes() {
    assert_eq!(Config::SPACE, 8 + 32 + 8 + 8 + 1);
    assert_eq!(AuctionDay::SPACE, 8 + 8 + 1 + 32 + 8 + 4 + 4 + 4 + 8 + 8 + 8 + 1);
    assert_eq!(BidReceipt::SPACE, 8 + 32 + 32 + 8 + 1);
}

#[test]
fn open_day_keeps_pools_and_counters_at_zero() {
    let cfg = config(50, 100);
    let (day, _, _, _) = three_bidders(cfg);
    assert!(!day.finalized);
    assert_eq!(day.refund_pool_remaining, 0);
    assert_eq!(day.fee_pool_remaining, 0);
    assert_eq!(day.refund_count_total, 0);
    assert_eq!(day.refund_count_completed, 0);
}

#[test]
fn day_goes_from_uninitialized_to_open_to_finalized() {
    let cfg = config(50, 100);
    assert_eq!(blank_day().phase(), DayPhase::Uninitialized);
    let (day, _, _, _) = three_bidders(cfg);
    assert_eq!(day.phase(), DayPhase::Open);
    let settled = settle_day(settle_ctx(cfg, day, 1000, NOON + 86_400), DAY).unwrap();
    assert_eq!(settled.auction_day.phase(), DayPhase::Finalized);
}

#[test]
fn action_marks_the_receipt() {
    let receipt = BidReceipt { auction_day: day_key(), bidder: id(2), amount: 300, refunded: false };
    assert_eq!(RefundAction::Skipped.write(receipt), receipt);
    let marked = BidReceipt { refunded: true, ..receipt };
    assert_eq!(RefundAction::Retired.write(receipt), marked);
    assert_eq!(RefundAction::Paid { refund_lamports: 250, fee_lamports: 50 }.write(receipt), marked);
}

#[test]
fn retiring_the_winner_changes_no_counter() {
    let cfg = config(50, 100);
    let (day, a, _, _) = three_bidders(cfg);
    let settled = settle_day(settle_ctx(cfg, day, 1000, NOON + 86_400), DAY).unwrap();
    let out = refund_batch(
        batch_ctx(cfg, settled.auction_day, 500, vec![receipt_account(id(1), a), wallet(id(1))]),
        DAY,
        vec![id(1)],
    )
    .unwrap();
    assert_eq!(out.actions, vec![RefundAction::Retired]);
    assert_eq!(out.auction_day, settled.auction_day);
    assert_eq!(out.vault_lamports, 500);
    assert!(RefundAction::Retired.write(a).refunded);
}
