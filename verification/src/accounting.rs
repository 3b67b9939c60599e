//! The books of one auction: the auction together with every bid that was
//! placed in it, and what holds between the two at every moment.
//!
//! The library keeps no collection of bids; whoever stores them holds a
//! sequence like the one spoken of here. The laws below say that every step
//! of the library takes balanced books to balanced books, so that books which
//! start with `create_auction` and no bids stay balanced for good.

use crate::auction::{Auction, AuctionStatus};
use crate::bidding::{bid_record, quote_for, Bid, BidQuote, BidStatus};
use crate::error::ErrorCode;
use crate::pricing::{lemma_price_non_increasing, lemma_price_within_bounds, lemma_quoted_price};
use crate::settlement::{claim_error, lemma_refund_of_overpayment, refund_amount, settled};
use anchor_lang::prelude::Pubkey;
use vstd::prelude::*;

verus! {

/// The tokens that `bid` holds: its amount, unless it was refunded.
pub open spec fn tokens_held(bid: Bid) -> int {
    if bid.status == BidStatus::Refunded {
        0
    } else {
        bid.token_amount as int
    }
}

/// The tokens that all of `bids` hold together.
pub open spec fn tokens_committed(bids: Seq<Bid>) -> int
    decreases bids.len(),
{
    if bids.len() == 0 {
        0
    } else {
        tokens_committed(bids.drop_last()) + tokens_held(bids.last())
    }
}

/// What was escrowed for all of `bids` together.
pub open spec fn funds_escrowed(bids: Seq<Bid>) -> int
    decreases bids.len(),
{
    if bids.len() == 0 {
        0
    } else {
        funds_escrowed(bids.drop_last()) + bids.last().total_cost
    }
}

/// The books balance: every token of the batch is either still on offer or
/// held by a bid, the auction has counted every bid and every amount
/// escrowed, and no bid was settled before the auction was finalized.
pub open spec fn balanced(auction: Auction, bids: Seq<Bid>) -> bool {
    &&& auction.tokens_remaining + tokens_committed(bids) == auction.total_tokens
    &&& funds_escrowed(bids) == auction.total_raised
    &&& bids.len() == auction.participant_count
    &&& forall|i: int|
        0 <= i < bids.len() && #[trigger] bids[i].status == BidStatus::Accepted ==> auction.status
            == AuctionStatus::Finalized
}

/// One more bid adds what it holds and what was escrowed for it.
pub proof fn lemma_sums_of_push(bids: Seq<Bid>, bid: Bid)
    ensures
        tokens_committed(bids.push(bid)) == tokens_committed(bids) + tokens_held(bid),
        funds_escrowed(bids.push(bid)) == funds_escrowed(bids) + bid.total_cost,
{
    assert(bids.push(bid).drop_last() =~= bids);
}

/// Replacing a bid by one that holds as many tokens and cost as much leaves
/// both sums as they were.
pub proof fn lemma_sums_of_update(bids: Seq<Bid>, i: int, bid: Bid)
    requires
        0 <= i < bids.len(),
        tokens_held(bid) == tokens_held(bids[i]),
        bid.total_cost == bids[i].total_cost,
    ensures
        tokens_committed(bids.update(i, bid)) == tokens_committed(bids),
        funds_escrowed(bids.update(i, bid)) == funds_escrowed(bids),
    decreases bids.len(),
{
    if i == bids.len() - 1 {
        assert(bids.update(i, bid).drop_last() =~= bids.drop_last());
    } else {
        assert(bids.update(i, bid).drop_last() =~= bids.drop_last().update(i, bid));
        lemma_sums_of_update(bids.drop_last(), i, bid);
    }
}

/// A new auction with no bids has balanced books.
pub proof fn lemma_creation_balances(
    authority: Pubkey,
    batch_number: u32,
    total_tokens: u64,
    start_price: u64,
    reserve_price: u64,
    start_time: i64,
    end_time: i64,
)
    ensures
        balanced(
            Auction::opened(
                authority,
                batch_number,
                total_tokens,
                start_price,
                reserve_price,
                start_time,
                end_time,
            ),
            Seq::empty(),
        ),
{
}

/// Conservation under bidding: a bid that is placed takes balanced books to
/// balanced books. (A bid that is rejected, or whose cost the ledger does not
/// escrow, changes nothing and records nothing.)
pub proof fn lemma_bid_keeps_balance(
    auction: Auction,
    bids: Seq<Bid>,
    auction_key: Pubkey,
    bidder: Pubkey,
    token_amount: u64,
    now: i64,
)
    requires
        balanced(auction, bids),
        quote_for(auction, token_amount, now) is Ok,
    ensures
        ({
            let quote = quote_for(auction, token_amount, now)->Ok_0;
            balanced(
                auction.after_bid(token_amount, quote.price_per_token, quote.total_cost),
                bids.push(bid_record(auction_key, bidder, token_amount, now, quote)),
            )
        }),
{
    let quote = quote_for(auction, token_amount, now)->Ok_0;
    let bid = bid_record(auction_key, bidder, token_amount, now, quote);
    let next = auction.after_bid(token_amount, quote.price_per_token, quote.total_cost);
    lemma_sums_of_push(bids, bid);
    lemma_quoted_price(
        auction.start_price,
        auction.reserve_price,
        auction.start_time,
        auction.end_time,
        now,
    );
    assert forall|i: int|
        0 <= i < bids.push(bid).len() && #[trigger] bids.push(bid)[i].status
            == BidStatus::Accepted implies next.status == AuctionStatus::Finalized by {
        if i < bids.len() {
            assert(bids[i].status == BidStatus::Accepted);
        }
    }
}

/// Conservation under finalizing: the supply and the bids stay as they are.
pub proof fn lemma_finalize_keeps_balance(auction: Auction, bids: Seq<Bid>, now: i64)
    requires
        balanced(auction, bids),
        auction.finalize_error(now) is None,
    ensures
        balanced(auction.finalized(), bids),
{
}

/// Conservation under cancelling. Only an auction without bids is cancelled,
/// so nothing is in escrow then.
pub proof fn lemma_cancel_keeps_balance(auction: Auction, bids: Seq<Bid>)
    requires
        balanced(auction, bids),
        auction.cancel_error() is None,
    ensures
        balanced(auction.cancelled(), bids),
        bids.len() == 0,
        auction.cancelled().total_raised == 0,
        auction.cancelled().tokens_remaining == auction.total_tokens,
{
    assert(bids =~= Seq::empty());
}

/// Conservation under settling: a settled bid still holds its tokens.
pub proof fn lemma_claim_keeps_balance(auction: Auction, bids: Seq<Bid>, i: int)
    requires
        balanced(auction, bids),
        0 <= i < bids.len(),
        claim_error(auction, bids[i]) is None,
    ensures
        balanced(auction, bids.update(i, settled(bids[i]))),
{
    lemma_sums_of_update(bids, i, settled(bids[i]));
    let after = bids.update(i, settled(bids[i]));
    assert forall|j: int|
        0 <= j < after.len() && #[trigger] after[j].status
            == BidStatus::Accepted implies auction.status == AuctionStatus::Finalized by {
        if j != i {
            assert(bids[j].status == BidStatus::Accepted);
        }
    }
}

/// No overselling, in general: in balanced books the bids never hold more
/// tokens than the batch has.
pub proof fn lemma_never_oversold(auction: Auction, bids: Seq<Bid>)
    requires
        balanced(auction, bids),
    ensures
        0 <= tokens_committed(bids) <= auction.total_tokens,
        tokens_committed(bids) == auction.total_tokens - auction.tokens_remaining,
{
    lemma_tokens_committed_nonnegative(bids);
}

/// Bids hold no negative number of tokens.
pub proof fn lemma_tokens_committed_nonnegative(bids: Seq<Bid>)
    ensures
        0 <= tokens_committed(bids),
    decreases bids.len(),
{
    if bids.len() > 0 {
        lemma_tokens_committed_nonnegative(bids.drop_last());
    }
}

/// No overselling, of two bids that race for the supply: where together they
/// ask for more than remains, the one that comes second is rejected once the
/// first is placed, at whatever times they arrive: with `AuctionNotActive`
/// where the first took all that was left, else with `AuctionEnded` where it
/// comes too late, else with `InsufficientTokens`.
pub proof fn lemma_no_overselling(
    auction: Auction,
    first_amount: u64,
    first_time: i64,
    second_amount: u64,
    second_time: i64,
)
    requires
        first_amount + second_amount > auction.tokens_remaining,
        quote_for(auction, first_amount, first_time) is Ok,
    ensures
        ({
            let quote = quote_for(auction, first_amount, first_time)->Ok_0;
            let next = auction.after_bid(first_amount, quote.price_per_token, quote.total_cost);
            &&& next.tokens_remaining == auction.tokens_remaining - first_amount
            &&& quote_for(next, second_amount, second_time) == Err::<BidQuote, ErrorCode>(
                if first_amount == auction.tokens_remaining {
                    ErrorCode::AuctionNotActive
                } else if second_time >= auction.end_time {
                    ErrorCode::AuctionEnded
                } else {
                    ErrorCode::InsufficientTokens
                },
            )
        }),
{
}

/// The auction after the bids asked for in `requests`, each an amount and the
/// time at which it arrives, were handled one after the other: those that the
/// rules allow are placed, the others change nothing.
pub open spec fn after_requests(auction: Auction, requests: Seq<(u64, i64)>) -> Auction
    decreases requests.len(),
{
    if requests.len() == 0 {
        auction
    } else {
        let before = after_requests(auction, requests.drop_last());
        match quote_for(before, requests.last().0, requests.last().1) {
            Ok(quote) => before.after_bid(
                requests.last().0,
                quote.price_per_token,
                quote.total_cost,
            ),
            Err(_) => before,
        }
    }
}

/// The tokens that went to those of `requests` that were placed.
pub open spec fn tokens_granted(auction: Auction, requests: Seq<(u64, i64)>) -> int
    decreases requests.len(),
{
    if requests.len() == 0 {
        0
    } else {
        let before = after_requests(auction, requests.drop_last());
        tokens_granted(auction, requests.drop_last()) + if quote_for(
            before,
            requests.last().0,
            requests.last().1,
        ) is Ok {
            requests.last().0 as int
        } else {
            0
        }
    }
}

/// No overselling, of any number of bids: however many requests race for the
/// supply, in whatever order they are handled and whatever they ask for, the
/// tokens granted are exactly those that left the supply, and never more than
/// were on offer.
pub proof fn lemma_requests_never_oversell(auction: Auction, requests: Seq<(u64, i64)>)
    ensures
        after_requests(auction, requests).tokens_remaining + tokens_granted(auction, requests)
            == auction.tokens_remaining,
        0 <= tokens_granted(auction, requests) <= auction.tokens_remaining,
        after_requests(auction, requests).total_tokens == auction.total_tokens,
    decreases requests.len(),
{
    if requests.len() > 0 {
        lemma_requests_never_oversell(auction, requests.drop_last());
    }
}

/// Every bid was charged in full, at a price that is not below the price that
/// the auction holds.
pub open spec fn covered(auction: Auction, bids: Seq<Bid>) -> bool {
    forall|i: int|
        0 <= i < bids.len() ==> (#[trigger] bids[i]).wf() && auction.current_price
            <= bids[i].price_per_token
}

/// While the clock does not run backwards, each bid is quoted a price that is
/// not above the price of the bid before it.
pub proof fn lemma_price_falls_between_bids(auction: Auction, last: i64, now: i64)
    requires
        auction.reserve_price <= auction.start_price,
        last <= now,
    ensures
        auction.price(now) <= auction.price(last),
{
    lemma_price_non_increasing(
        auction.start_price,
        auction.reserve_price,
        auction.start_time,
        auction.end_time,
        last,
        now,
    );
}

/// A bid that is quoted no more than the price that the auction holds keeps
/// every bid covered.
pub proof fn lemma_bid_keeps_cover(
    auction: Auction,
    bids: Seq<Bid>,
    auction_key: Pubkey,
    bidder: Pubkey,
    token_amount: u64,
    now: i64,
)
    requires
        covered(auction, bids),
        quote_for(auction, token_amount, now) is Ok,
        quote_for(auction, token_amount, now)->Ok_0.price_per_token <= auction.current_price,
    ensures
        ({
            let quote = quote_for(auction, token_amount, now)->Ok_0;
            covered(
                auction.after_bid(token_amount, quote.price_per_token, quote.total_cost),
                bids.push(bid_record(auction_key, bidder, token_amount, now, quote)),
            )
        }),
{
    let quote = quote_for(auction, token_amount, now)->Ok_0;
    let bid = bid_record(auction_key, bidder, token_amount, now, quote);
    let next = auction.after_bid(token_amount, quote.price_per_token, quote.total_cost);
    lemma_quoted_price(
        auction.start_price,
        auction.reserve_price,
        auction.start_time,
        auction.end_time,
        now,
    );
    assert forall|i: int| 0 <= i < bids.push(bid).len() implies (#[trigger] bids.push(bid)[i]).wf()
        && next.current_price <= bids.push(bid)[i].price_per_token by {
        if i < bids.len() {
            assert(bids[i].wf());
        }
    }
}

/// Finalizing a well-formed auction keeps every bid covered: the clearing
/// price is not above the price of any bid.
pub proof fn lemma_finalize_keeps_cover(auction: Auction, bids: Seq<Bid>, now: i64)
    requires
        auction.wf(),
        covered(auction, bids),
        auction.finalize_error(now) is None,
    ensures
        covered(auction.finalized(), bids),
{
    assert forall|i: int| 0 <= i < bids.len() implies (#[trigger] bids[i]).wf()
        && auction.finalized().current_price <= bids[i].price_per_token by {
        assert(bids[i].wf());
    }
}

/// Settling a bid keeps every bid covered.
pub proof fn lemma_claim_keeps_cover(auction: Auction, bids: Seq<Bid>, i: int)
    requires
        covered(auction, bids),
        0 <= i < bids.len(),
    ensures
        covered(auction, bids.update(i, settled(bids[i]))),
{
    let after = bids.update(i, settled(bids[i]));
    assert forall|j: int| 0 <= j < after.len() implies (#[trigger] after[j]).wf()
        && auction.current_price <= after[j].price_per_token by {
        assert(bids[j].wf());
    }
}

/// Once the auction is finalized, every covered bid that is still pending can
/// be settled, and gets back the difference between its own price and the
/// clearing price on every token.
pub proof fn lemma_covered_bids_settle(auction: Auction, bids: Seq<Bid>, i: int)
    requires
        covered(auction, bids),
        auction.status == AuctionStatus::Finalized,
        0 <= i < bids.len(),
        bids[i].status == BidStatus::Pending,
    ensures
        claim_error(auction, bids[i]) is None,
        refund_amount(auction, bids[i]) == bids[i].token_amount * (bids[i].price_per_token
            - auction.current_price),
{
    assert(bids[i].wf());
    lemma_refund_of_overpayment(auction, bids[i]);
}

/// A bid that is placed in a well-formed auction leaves it well-formed: the
/// price it holds stays between the reserve price and the start price.
pub proof fn lemma_bid_keeps_wf(auction: Auction, token_amount: u64, now: i64)
    requires
        auction.wf(),
        quote_for(auction, token_amount, now) is Ok,
    ensures
        ({
            let quote = quote_for(auction, token_amount, now)->Ok_0;
            auction.after_bid(token_amount, quote.price_per_token, quote.total_cost).wf()
        }),
{
    lemma_quoted_price(
        auction.start_price,
        auction.reserve_price,
        auction.start_time,
        auction.end_time,
        now,
    );
    lemma_price_within_bounds(
        auction.start_price,
        auction.reserve_price,
        auction.start_time,
        auction.end_time,
        now,
    );
}

/// However many bids are asked for, a well-formed auction stays well-formed.
pub proof fn lemma_requests_keep_wf(auction: Auction, requests: Seq<(u64, i64)>)
    requires
        auction.wf(),
    ensures
        after_requests(auction, requests).wf(),
    decreases requests.len(),
{
    if requests.len() > 0 {
        lemma_requests_keep_wf(auction, requests.drop_last());
        let before = after_requests(auction, requests.drop_last());
        if quote_for(before, requests.last().0, requests.last().1) is Ok {
            lemma_bid_keeps_wf(before, requests.last().0, requests.last().1);
        }
    }
}

} // verus!
