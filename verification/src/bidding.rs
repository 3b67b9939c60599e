//! Placing a bid: the price is computed from the time of the bid, never taken
//! from the bidder; the cost is escrowed in full; the bid is recorded and the
//! tokens leave the supply, all of it or none.

use crate::auction::{Auction, AuctionStatus};
use crate::error::ErrorCode;
use crate::ledger::{Failure, LedgerOutcome};
use crate::pricing::{
    calculate_current_price, lemma_price_within_bounds, lemma_quoted_price, price_at, quoted_price,
};
use anchor_lang::prelude::Pubkey;
use vstd::arithmetic::mul::lemma_mul_nonnegative;
use vstd::prelude::*;

verus! {

/// Where a bid stands.
#[derive(Clone, Copy, Debug, PartialEq, Eq, Structural)]
pub enum BidStatus {
    /// Placed and paid for; not settled yet.
    Pending,
    /// Settled at the clearing price.
    Accepted,
    /// Paid back in full.
    Refunded,
}

/// One accepted request for tokens, with what was escrowed for it.
#[derive(Clone, Copy, Debug, PartialEq, Eq)]
pub struct Bid {
    /// The auction that the bid was placed in.
    pub auction: Pubkey,
    /// Who placed it.
    pub bidder: Pubkey,
    /// How many tokens were bid for.
    pub token_amount: u64,
    /// The unit price at the moment of the bid.
    pub price_per_token: u64,
    /// What was escrowed: `token_amount` times `price_per_token`.
    pub total_cost: u64,
    /// When the bid was placed.
    pub timestamp: i64,
    pub status: BidStatus,
}

impl Bid {
    /// What holds of every bid that `place_bid` has made.
    pub open spec fn wf(self) -> bool {
        self.total_cost == self.token_amount * self.price_per_token
    }
}

/// What a bid would be charged: the price per token and the cost to escrow.
#[derive(Clone, Copy, Debug, PartialEq, Eq, Structural)]
pub struct BidQuote {
    pub price_per_token: u64,
    pub total_cost: u64,
}

impl Auction {
    /// The unit price that the auction quotes at time `now`.
    pub open spec fn price(self, now: i64) -> int {
        price_at(self.start_price, self.reserve_price, self.start_time, self.end_time, now)
    }

    /// The first rule, if any, that keeps the auction from taking
    /// `token_amount` more tokens out of its supply at time `now`, for a bid
    /// that cost `cost`.
    pub open spec fn record_error(self, token_amount: u64, cost: u64, now: i64) -> Option<
        ErrorCode,
    > {
        if self.status != AuctionStatus::Active {
            Some(ErrorCode::AuctionNotActive)
        } else if now >= self.end_time {
            Some(ErrorCode::AuctionEnded)
        } else if token_amount > self.tokens_remaining {
            Some(ErrorCode::InsufficientTokens)
        } else if self.total_raised + cost > u64::MAX {
            Some(ErrorCode::MathOverflow)
        } else if self.participant_count == u32::MAX {
            Some(ErrorCode::MathOverflow)
        } else {
            None
        }
    }

    /// The first rule, if any, that rejects a bid for `token_amount` tokens at
    /// time `now`: the auction is not active, the time is up, the supply is
    /// too small, or the price, the cost, the total raised or the number of
    /// participants would not fit its type.
    pub open spec fn bid_error(self, token_amount: u64, now: i64) -> Option<ErrorCode> {
        if self.status != AuctionStatus::Active {
            Some(ErrorCode::AuctionNotActive)
        } else if now >= self.end_time {
            Some(ErrorCode::AuctionEnded)
        } else if token_amount > self.tokens_remaining {
            Some(ErrorCode::InsufficientTokens)
        } else if quoted_price(
            self.start_price,
            self.reserve_price,
            self.start_time,
            self.end_time,
            now,
        ) is Err {
            Some(ErrorCode::MathOverflow)
        } else if token_amount * self.price(now) > u64::MAX {
            Some(ErrorCode::MathOverflow)
        } else {
            self.record_error(token_amount, (token_amount * self.price(now)) as u64, now)
        }
    }

    /// The auction after a bid for `token_amount` tokens at `price` each, for
    /// which `cost` was escrowed.
    pub open spec fn after_bid(self, token_amount: u64, price: u64, cost: u64) -> Auction {
        Auction {
            current_price: price,
            tokens_remaining: (self.tokens_remaining - token_amount) as u64,
            total_raised: (self.total_raised + cost) as u64,
            participant_count: (self.participant_count + 1) as u32,
            status: if self.tokens_remaining == token_amount {
                AuctionStatus::Completed
            } else {
                self.status
            },
            ..self
        }
    }

    /// Takes `token_amount` tokens out of the supply at time `now`, for a bid
    /// at `price` each for which `cost` has been escrowed, and closes the
    /// auction to further bids where none are left. The supply is read and
    /// reduced in this one step, so that no two bids can be given the same
    /// tokens.
    pub fn record_bid(&mut self, token_amount: u64, price: u64, cost: u64, now: i64) -> (r: Result<
        (),
        ErrorCode,
    >)
        ensures
            match old(self).record_error(token_amount, cost, now) {
                Some(e) => r == Err::<(), ErrorCode>(e) && *final(self) == *old(self),
                None => r == Ok::<(), ErrorCode>(()) && *final(self) == old(self).after_bid(
                    token_amount,
                    price,
                    cost,
                ),
            },
            old(self).wf() && old(self).reserve_price <= price <= old(self).start_price
                ==> final(self).wf(),
    {
        if self.status != AuctionStatus::Active {
            return Err(ErrorCode::AuctionNotActive);
        }
        if now >= self.end_time {
            return Err(ErrorCode::AuctionEnded);
        }
        if token_amount > self.tokens_remaining {
            return Err(ErrorCode::InsufficientTokens);
        }
        let total_raised: u64 = match self.total_raised.checked_add(cost) {
            Some(sum) => sum,
            None => {
                return Err(ErrorCode::MathOverflow);
            },
        };
        let participant_count: u32 = match self.participant_count.checked_add(1) {
            Some(count) => count,
            None => {
                return Err(ErrorCode::MathOverflow);
            },
        };
        self.current_price = price;
        self.tokens_remaining = self.tokens_remaining - token_amount;
        self.total_raised = total_raised;
        self.participant_count = participant_count;
        if self.tokens_remaining == 0 {
            self.status = AuctionStatus::Completed;
        }
        Ok(())
    }
}

/// What a bid for `token_amount` tokens at time `now` is charged, where the
/// rules allow it.
pub open spec fn quote_for(auction: Auction, token_amount: u64, now: i64) -> Result<
    BidQuote,
    ErrorCode,
> {
    match auction.bid_error(token_amount, now) {
        Some(e) => Err(e),
        None => Ok(
            BidQuote {
                price_per_token: auction.price(now) as u64,
                total_cost: (token_amount * auction.price(now)) as u64,
            },
        ),
    }
}

/// The bid that is recorded for `quote`.
pub open spec fn bid_record(
    auction_key: Pubkey,
    bidder: Pubkey,
    token_amount: u64,
    now: i64,
    quote: BidQuote,
) -> Bid {
    Bid {
        auction: auction_key,
        bidder,
        token_amount,
        price_per_token: quote.price_per_token,
        total_cost: quote.total_cost,
        timestamp: now,
        status: BidStatus::Pending,
    }
}

/// Prices a bid for `token_amount` tokens at time `now` without changing
/// anything. The caller escrows `total_cost` and then calls `place_bid` with
/// the ledger's answer.
pub fn quote_bid(auction: &Auction, token_amount: u64, now: i64) -> (r: Result<
    BidQuote,
    ErrorCode,
>)
    ensures
        r == quote_for(*auction, token_amount, now),
{
    if auction.status != AuctionStatus::Active {
        return Err(ErrorCode::AuctionNotActive);
    }
    if now >= auction.end_time {
        return Err(ErrorCode::AuctionEnded);
    }
    if token_amount > auction.tokens_remaining {
        return Err(ErrorCode::InsufficientTokens);
    }
    let price_per_token: u64 = match calculate_current_price(
        auction.start_price,
        auction.reserve_price,
        auction.start_time,
        auction.end_time,
        now,
    ) {
        Ok(price) => price,
        Err(e) => {
            return Err(e);
        },
    };
    proof {
        lemma_quoted_price(
            auction.start_price,
            auction.reserve_price,
            auction.start_time,
            auction.end_time,
            now,
        );
    }
    let total_cost: u64 = match token_amount.checked_mul(price_per_token) {
        Some(cost) => cost,
        None => {
            return Err(ErrorCode::MathOverflow);
        },
    };
    if auction.total_raised.checked_add(total_cost).is_none() {
        return Err(ErrorCode::MathOverflow);
    }
    if auction.participant_count == u32::MAX {
        return Err(ErrorCode::MathOverflow);
    }
    Ok(BidQuote { price_per_token, total_cost })
}

/// Places a bid of `bidder` for `token_amount` tokens at time `now`, in the
/// auction stored under `auction_key`. `escrow` is the ledger's answer to the
/// transfer of the cost that `quote_bid` gave for the same auction, amount
/// and time. The bid is recorded and the auction changed only where the rules
/// allow the bid and the cost has been escrowed.
pub fn place_bid(
    auction: &mut Auction,
    auction_key: Pubkey,
    bidder: Pubkey,
    token_amount: u64,
    now: i64,
    escrow: LedgerOutcome,
) -> (r: Result<Bid, Failure<ErrorCode>>)
    ensures
        match quote_for(*old(auction), token_amount, now) {
            Err(e) => r == Err::<Bid, Failure<ErrorCode>>(Failure::Rule(e)) && *final(auction)
                == *old(auction),
            Ok(quote) => match escrow {
                LedgerOutcome::Failed => r == Err::<Bid, Failure<ErrorCode>>(Failure::Ledger)
                    && *final(auction) == *old(auction),
                LedgerOutcome::Completed => r == Ok::<Bid, Failure<ErrorCode>>(
                    bid_record(auction_key, bidder, token_amount, now, quote),
                ) && *final(auction) == old(auction).after_bid(
                    token_amount,
                    quote.price_per_token,
                    quote.total_cost,
                ),
            },
        },
        old(auction).wf() ==> final(auction).wf(),
        r matches Ok(bid) ==> bid.wf(),
{
    let quote: BidQuote = match quote_bid(auction, token_amount, now) {
        Ok(quote) => quote,
        Err(e) => {
            return Err(Failure::Rule(e));
        },
    };
    match escrow {
        LedgerOutcome::Failed => {
            return Err(Failure::Ledger);
        },
        LedgerOutcome::Completed => {},
    }
    proof {
        lemma_quoted_price(
            auction.start_price,
            auction.reserve_price,
            auction.start_time,
            auction.end_time,
            now,
        );
        if auction.reserve_price <= auction.start_price {
            lemma_price_within_bounds(
                auction.start_price,
                auction.reserve_price,
                auction.start_time,
                auction.end_time,
                now,
            );
        }
    }
    match auction.record_bid(token_amount, quote.price_per_token, quote.total_cost, now) {
        Ok(()) => {},
        Err(e) => {
            return Err(Failure::Rule(e));
        },
    }
    Ok(
        Bid {
            auction: auction_key,
            bidder,
            token_amount,
            price_per_token: quote.price_per_token,
            total_cost: quote.total_cost,
            timestamp: now,
            status: BidStatus::Pending,
        },
    )
}

/// When a bid is owed its place: in a well-formed, active auction, before the
/// end time, a bid for no more than remains is rejected for no reason but
/// that a sum would not fit its type.
pub proof fn lemma_bid_is_owed(auction: Auction, token_amount: u64, now: i64)
    requires
        auction.wf(),
        auction.status == AuctionStatus::Active,
        now < auction.end_time,
        token_amount <= auction.tokens_remaining,
        auction.total_raised + token_amount * auction.price(now) <= u64::MAX,
        auction.participant_count < u32::MAX,
    ensures
        quote_for(auction, token_amount, now) matches Ok(quote) && quote.price_per_token
            == auction.price(now) && quote.total_cost == token_amount * auction.price(now),
        auction.reserve_price <= auction.price(now) <= auction.start_price,
{
    lemma_quoted_price(
        auction.start_price,
        auction.reserve_price,
        auction.start_time,
        auction.end_time,
        now,
    );
    lemma_price_within_bounds(
        auction.start_price,
        auction.reserve_price,
        auction.start_time,
        auction.end_time,
        now,
    );
    lemma_mul_nonnegative(token_amount as int, auction.price(now));
}

/// A bid for all that remains sells the auction out, and nothing is left for
/// any bid that follows: a bid for a part leaves the rest on offer.
pub proof fn lemma_last_bid_sells_out(auction: Auction, token_amount: u64, now: i64)
    requires
        quote_for(auction, token_amount, now) is Ok,
    ensures
        ({
            let quote = quote_for(auction, token_amount, now)->Ok_0;
            let next = auction.after_bid(token_amount, quote.price_per_token, quote.total_cost);
            &&& next.tokens_remaining == auction.tokens_remaining - token_amount
            &&& token_amount == auction.tokens_remaining ==> next.status
                == AuctionStatus::Completed && next.tokens_remaining == 0
            &&& token_amount < auction.tokens_remaining ==> next.status == AuctionStatus::Active
        }),
{
}

} // verus!
