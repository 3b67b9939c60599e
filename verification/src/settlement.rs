//! Settling a bid once its auction is finalized: the bidder keeps the tokens
//! at the clearing price and gets back what was escrowed beyond it.

use crate::auction::{Auction, AuctionStatus};
use crate::bidding::{Bid, BidStatus};
use crate::error::ErrorCode;
use crate::ledger::{Failure, LedgerOutcome};
use vstd::arithmetic::mul::*;
use vstd::prelude::*;

verus! {

/// What `bid` costs at the price that `auction` holds: once the auction is
/// finalized, at its clearing price.
pub open spec fn settled_cost(auction: Auction, bid: Bid) -> int {
    bid.token_amount * auction.current_price
}

/// What was escrowed for `bid` beyond its settled cost.
pub open spec fn refund_amount(auction: Auction, bid: Bid) -> int {
    bid.total_cost - settled_cost(auction, bid)
}

/// The first rule, if any, that forbids settling `bid` against `auction`.
pub open spec fn claim_error(auction: Auction, bid: Bid) -> Option<ErrorCode> {
    if auction.status != AuctionStatus::Finalized {
        Some(ErrorCode::AuctionNotFinalized)
    } else if bid.status != BidStatus::Pending {
        Some(ErrorCode::BidAlreadyProcessed)
    } else if refund_amount(auction, bid) < 0 {
        Some(ErrorCode::MathOverflow)
    } else {
        None
    }
}

/// The bid after it has been settled.
pub open spec fn settled(bid: Bid) -> Bid {
    Bid { status: BidStatus::Accepted, ..bid }
}

/// What settling `bid` against `auction` pays back, without changing
/// anything. Where the refund is positive the caller has the ledger pay it
/// from escrow to the bidder and then calls `claim_tokens` with the ledger's
/// answer.
pub fn refund_due(auction: &Auction, bid: &Bid) -> (r: Result<u64, ErrorCode>)
    ensures
        match claim_error(*auction, *bid) {
            Some(e) => r == Err::<u64, ErrorCode>(e),
            None => r matches Ok(refund) && refund == refund_amount(*auction, *bid),
        },
{
    if auction.status != AuctionStatus::Finalized {
        return Err(ErrorCode::AuctionNotFinalized);
    }
    if bid.status != BidStatus::Pending {
        return Err(ErrorCode::BidAlreadyProcessed);
    }
    let cost: u64 = match bid.token_amount.checked_mul(auction.current_price) {
        Some(cost) => cost,
        None => {
            return Err(ErrorCode::MathOverflow);
        },
    };
    match bid.total_cost.checked_sub(cost) {
        Some(refund) => Ok(refund),
        None => Err(ErrorCode::MathOverflow),
    }
}

/// Settles `bid` against its finalized `auction` and returns the refund.
/// `refund` is the ledger's answer to the payment of the amount that
/// `refund_due` gave; where that amount is zero no payment is asked for and
/// `refund` is not looked at. The bid is marked accepted only where the rules
/// allow it and the refund, if any, has been paid. The bidder is then owed
/// `token_amount` tokens.
pub fn claim_tokens(auction: &Auction, bid: &mut Bid, refund: LedgerOutcome) -> (r: Result<
    u64,
    Failure<ErrorCode>,
>)
    ensures
        match claim_error(*auction, *old(bid)) {
            Some(e) => r == Err::<u64, Failure<ErrorCode>>(Failure::Rule(e)) && *final(bid)
                == *old(bid),
            None => if refund_amount(*auction, *old(bid)) > 0 && refund == LedgerOutcome::Failed {
                r == Err::<u64, Failure<ErrorCode>>(Failure::Ledger) && *final(bid) == *old(bid)
            } else {
                r matches Ok(paid) && paid == refund_amount(*auction, *old(bid)) && *final(bid)
                    == settled(*old(bid))
            },
        },
{
    let amount: u64 = match refund_due(auction, bid) {
        Ok(amount) => amount,
        Err(e) => {
            return Err(Failure::Rule(e));
        },
    };
    if amount > 0 {
        match refund {
            LedgerOutcome::Failed => {
                return Err(Failure::Ledger);
            },
            LedgerOutcome::Completed => {},
        }
    }
    bid.status = BidStatus::Accepted;
    Ok(amount)
}

/// A bid that was charged in full at its own price, settled at a clearing
/// price that is not above that price, gets back the difference on every
/// token: the refund is never refused for want of funds in escrow.
pub proof fn lemma_refund_of_overpayment(auction: Auction, bid: Bid)
    requires
        bid.wf(),
        auction.current_price <= bid.price_per_token,
    ensures
        refund_amount(auction, bid) == bid.token_amount * (bid.price_per_token
            - auction.current_price),
        refund_amount(auction, bid) >= 0,
        auction.status == AuctionStatus::Finalized && bid.status == BidStatus::Pending
            ==> claim_error(auction, bid) is None,
{
    lemma_mul_is_distributive_sub(
        bid.token_amount as int,
        bid.price_per_token as int,
        auction.current_price as int,
    );
    lemma_mul_nonnegative(
        bid.token_amount as int,
        bid.price_per_token - auction.current_price,
    );
}

/// A bid is settled once: a settled bid cannot be settled again, against
/// whatever auction.
pub proof fn lemma_claim_only_once(auction: Auction, bid: Bid, other: Auction)
    requires
        claim_error(auction, bid) is None,
    ensures
        claim_error(other, settled(bid)) is Some,
        other.status == AuctionStatus::Finalized ==> claim_error(other, settled(bid)) == Some(
            ErrorCode::BidAlreadyProcessed,
        ),
{
}

} // verus!
