use anchor_lang::prelude::Pubkey;
use carbon_auction::auction::{create_auction, finalize_auction, Auction, AuctionStatus};
use carbon_auction::bidding::{place_bid, Bid, BidStatus};
use carbon_auction::error::ErrorCode;
use carbon_auction::ledger::{Failure, LedgerOutcome};
use carbon_auction::settlement::{claim_tokens, refund_due};

fn key(n: u8) -> Pubkey {
    Pubkey::new_from_array([n; 32])
}

fn sample(total_tokens: u64) -> Auction {
    create_auction(key(1), 7, total_tokens, 100, 10, 1000, 0).unwrap()
}

#[test]
fn claim_after_an_unsold_auction_refunds_down_to_the_reserve() {
    let mut auction = sample(100);
    let mut bid =
        place_bid(&mut auction, key(9), key(2), 10, 500, LedgerOutcome::Completed).unwrap();
    assert_eq!(bid.total_cost, 550);
    assert_eq!(finalize_auction(&mut auction, 1000), Ok(10));
    assert_eq!(refund_due(&auction, &bid), Ok(450));
    assert_eq!(claim_tokens(&auction, &mut bid, LedgerOutcome::Completed), Ok(450));
    assert_eq!(bid.status, BidStatus::Accepted);
    assert_eq!(bid.token_amount, 10);
    assert_eq!(bid.total_cost, 550);
}

#[test]
fn claim_after_a_sold_out_auction_refunds_down_to_the_last_price() {
    let mut auction = sample(15);
    let mut early =
        place_bid(&mut auction, key(9), key(2), 5, 334, LedgerOutcome::Completed).unwrap();
    let mut last =
        place_bid(&mut auction, key(9), key(3), 10, 667, LedgerOutcome::Completed).unwrap();
    assert_eq!((early.price_per_token, early.total_cost), (70, 350));
    assert_eq!((last.price_per_token, last.total_cost), (40, 400));
    assert_eq!(finalize_auction(&mut auction, 700), Ok(40));
    assert_eq!(claim_tokens(&auction, &mut early, LedgerOutcome::Completed), Ok(150));
    assert_eq!(claim_tokens(&auction, &mut last, LedgerOutcome::Completed), Ok(0));
    assert_eq!(early.status, BidStatus::Accepted);
    assert_eq!(last.status, BidStatus::Accepted);
}

#[test]
fn claim_before_the_auction_is_finalized_is_rejected() {
    let mut auction = sample(100);
    let mut bid =
        place_bid(&mut auction, key(9), key(2), 10, 500, LedgerOutcome::Completed).unwrap();
    let before = bid;
    assert_eq!(
        claim_tokens(&auction, &mut bid, LedgerOutcome::Completed),
        Err(Failure::Rule(ErrorCode::AuctionNotFinalized))
    );
    assert_eq!(refund_due(&auction, &bid), Err(ErrorCode::AuctionNotFinalized));
    assert_eq!(bid, before);
    for status in [AuctionStatus::Completed, AuctionStatus::Cancelled] {
        auction.status = status;
        assert_eq!(
            claim_tokens(&auction, &mut bid, LedgerOutcome::Completed),
            Err(Failure::Rule(ErrorCode::AuctionNotFinalized))
        );
    }
    assert_eq!(bid, before);
}

#[test]
fn claim_twice_is_rejected() {
    let mut auction = sample(100);
    let mut bid =
        place_bid(&mut auction, key(9), key(2), 10, 500, LedgerOutcome::Completed).unwrap();
    finalize_auction(&mut auction, 1000).unwrap();
    assert_eq!(claim_tokens(&auction, &mut bid, LedgerOutcome::Completed), Ok(450));
    let settled = bid;
    assert_eq!(
        claim_tokens(&auction, &mut bid, LedgerOutcome::Completed),
        Err(Failure::Rule(ErrorCode::BidAlreadyProcessed))
    );
    assert_eq!(refund_due(&auction, &bid), Err(ErrorCode::BidAlreadyProcessed));
    assert_eq!(bid, settled);
}

#[test]
fn claim_of_a_refunded_bid_is_rejected() {
    let mut auction = sample(100);
    let mut bid =
        place_bid(&mut auction, key(9), key(2), 10, 500, LedgerOutcome::Completed).unwrap();
    finalize_auction(&mut auction, 1000).unwrap();
    bid.status = BidStatus::Refunded;
    assert_eq!(
        claim_tokens(&auction, &mut bid, LedgerOutcome::Completed),
        Err(Failure::Rule(ErrorCode::BidAlreadyProcessed))
    );
    assert_eq!(bid.status, BidStatus::Refunded);
}

#[test]
fn claim_whose_refund_fails_leaves_the_bid_pending() {
    let mut auction = sample(100);
    let mut bid =
        place_bid(&mut auction, key(9), key(2), 10, 500, LedgerOutcome::Completed).unwrap();
    finalize_auction(&mut auction, 1000).unwrap();
    let before = bid;
    assert_eq!(
        claim_tokens(&auction, &mut bid, LedgerOutcome::Failed),
        Err(Failure::Ledger)
    );
    assert_eq!(bid, before);
    // The claim can be made again once the ledger pays.
    assert_eq!(claim_tokens(&auction, &mut bid, LedgerOutcome::Completed), Ok(450));
}

#[test]
fn claim_without_a_refund_asks_nothing_of_the_ledger() {
    let mut auction = sample(10);
    let mut bid =
        place_bid(&mut auction, key(9), key(2), 10, 667, LedgerOutcome::Completed).unwrap();
    assert_eq!(finalize_auction(&mut auction, 667), Ok(40));
    assert_eq!(claim_tokens(&auction, &mut bid, LedgerOutcome::Failed), Ok(0));
    assert_eq!(bid.status, BidStatus::Accepted);
}

#[test]
fn claim_that_would_pay_a_negative_refund_is_an_overflow() {
    let mut auction = sample(100);
    finalize_auction(&mut auction, 1000).unwrap();
    auction.current_price = 70;
    let mut bid = Bid {
        auction: key(9),
        bidder: key(2),
        token_amount: 5,
        price_per_token: 40,
        total_cost: 200,
        timestamp: 667,
        status: BidStatus::Pending,
    };
    let before = bid;
    assert_eq!(
        claim_tokens(&auction, &mut bid, LedgerOutcome::Completed),
        Err(Failure::Rule(ErrorCode::MathOverflow))
    );
    assert_eq!(refund_due(&auction, &bid), Err(ErrorCode::MathOverflow));
    assert_eq!(bid, before);
}

#[test]
fn claim_whose_settled_cost_does_not_fit_is_an_overflow() {
    let mut auction = sample(100);
    finalize_auction(&mut auction, 1000).unwrap();
    auction.current_price = u64::MAX;
    let mut bid = Bid {
        auction: key(9),
        bidder: key(2),
        token_amount: 3,
        price_per_token: 1,
        total_cost: u64::MAX,
        timestamp: 0,
        status: BidStatus::Pending,
    };
    assert_eq!(
        claim_tokens(&auction, &mut bid, LedgerOutcome::Completed),
        Err(Failure::Rule(ErrorCode::MathOverflow))
    );
    assert_eq!(bid.status, BidStatus::Pending);
}

#[test]
fn claim_checks_the_auction_before_the_bid() {
    let auction = sample(100);
    let mut bid = Bid {
        auction: key(9),
        bidder: key(2),
        token_amount: 5,
        price_per_token: 40,
        total_cost: 200,
        timestamp: 667,
        status: BidStatus::Accepted,
    };
    assert_eq!(
        claim_tokens(&auction, &mut bid, LedgerOutcome::Completed),
        Err(Failure::Rule(ErrorCode::AuctionNotFinalized))
    );
}

#[test]
fn refunds_and_settled_costs_add_up_to_what_was_raised() {
    let mut auction = sample(30);
    let mut bids = vec![
        place_bid(&mut auction, key(9), key(2), 10, 100, LedgerOutcome::Completed).unwrap(),
        place_bid(&mut auction, key(9), key(3), 10, 500, LedgerOutcome::Completed).unwrap(),
        place_bid(&mut auction, key(9), key(4), 10, 900, LedgerOutcome::Completed).unwrap(),
    ];
    let clearing = finalize_auction(&mut auction, 901).unwrap();
    assert_eq!(clearing, 19);
    let mut refunded: u64 = 0;
    for bid in bids.iter_mut() {
        let refund = claim_tokens(&auction, bid, LedgerOutcome::Completed).unwrap();
        assert_eq!(refund, bid.total_cost - bid.token_amount * clearing);
        refunded += refund;
    }
    assert_eq!(refunded + 30 * clearing, auction.total_raised);
}
