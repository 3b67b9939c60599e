//! The state of one auction and the steps of its life: it is created active,
//! may sell out, is finalized at a clearing price, or is cancelled before
//! anybody has bid.

use crate::error::ErrorCode;
use anchor_lang::prelude::Pubkey;
use vstd::prelude::*;

verus! {

/// Where an auction stands in its life.
#[derive(Clone, Copy, Debug, PartialEq, Eq, Structural)]
pub enum AuctionStatus {
    /// Open for bids.
    Active,
    /// Sold out: every token has been bid for.
    Completed,
    /// Closed at a clearing price. Nothing changes from here on.
    Finalized,
    /// Withdrawn before any bid. Nothing changes from here on.
    Cancelled,
}

/// One auction: a batch of tokens offered at a falling price.
#[derive(Clone, Copy, Debug, PartialEq, Eq)]
pub struct Auction {
    /// Who opened the auction.
    pub authority: Pubkey,
    /// The number of the batch on offer.
    pub batch_number: u32,
    /// How many tokens the batch holds.
    pub total_tokens: u64,
    /// How many of them nobody has bid for yet.
    pub tokens_remaining: u64,
    /// The unit price at `start_time`.
    pub start_price: u64,
    /// The unit price quoted last; once finalized, the clearing price.
    pub current_price: u64,
    /// The unit price from `end_time` on.
    pub reserve_price: u64,
    /// When the price starts to fall.
    pub start_time: i64,
    /// When bidding closes.
    pub end_time: i64,
    pub status: AuctionStatus,
    /// The sum of the costs of all bids.
    pub total_raised: u64,
    /// How many bids were placed.
    pub participant_count: u32,
}

impl Auction {
    /// What holds of every auction that was made by `create_auction` and
    /// changed only by the functions of this library.
    pub open spec fn wf(self) -> bool {
        &&& self.reserve_price < self.start_price
        &&& self.start_time < self.end_time
        &&& self.tokens_remaining <= self.total_tokens
        &&& self.reserve_price <= self.current_price <= self.start_price
        &&& (self.status == AuctionStatus::Completed ==> self.tokens_remaining == 0
            && self.participant_count > 0)
        &&& (self.status == AuctionStatus::Cancelled ==> self.participant_count == 0)
        &&& (self.participant_count == 0 ==> self.tokens_remaining == self.total_tokens
            && self.total_raised == 0)
    }

    /// The auction as it stands right after its creation.
    pub open spec fn opened(
        authority: Pubkey,
        batch_number: u32,
        total_tokens: u64,
        start_price: u64,
        reserve_price: u64,
        start_time: i64,
        end_time: i64,
    ) -> Auction {
        Auction {
            authority,
            batch_number,
            total_tokens,
            tokens_remaining: total_tokens,
            start_price,
            current_price: start_price,
            reserve_price,
            start_time,
            end_time,
            status: AuctionStatus::Active,
            total_raised: 0,
            participant_count: 0,
        }
    }

    /// Whether every token has been bid for.
    pub open spec fn sold_out(self) -> bool {
        self.tokens_remaining == 0
    }

    /// The first rule, if any, that forbids finalizing at time `now`.
    pub open spec fn finalize_error(self, now: i64) -> Option<ErrorCode> {
        if self.status != AuctionStatus::Active && self.status != AuctionStatus::Completed {
            Some(ErrorCode::InvalidAuctionStatus)
        } else if now < self.end_time && !self.sold_out() {
            Some(ErrorCode::AuctionNotEnded)
        } else {
            None
        }
    }

    /// The price at which the auction clears: the price quoted to the last
    /// bid where the auction sold out, the reserve price where it did not.
    pub open spec fn clearing_price(self) -> u64 {
        if self.sold_out() {
            self.current_price
        } else {
            self.reserve_price
        }
    }

    /// The auction after it has been finalized.
    pub open spec fn finalized(self) -> Auction {
        Auction {
            status: AuctionStatus::Finalized,
            current_price: self.clearing_price(),
            ..self
        }
    }

    /// The first rule, if any, that forbids cancelling.
    pub open spec fn cancel_error(self) -> Option<ErrorCode> {
        if self.status != AuctionStatus::Active {
            Some(ErrorCode::InvalidAuctionStatus)
        } else if self.participant_count != 0 {
            Some(ErrorCode::HasParticipants)
        } else {
            None
        }
    }

    /// The auction after it has been cancelled.
    pub open spec fn cancelled(self) -> Auction {
        Auction { status: AuctionStatus::Cancelled, ..self }
    }
}

/// The first rule, if any, that forbids creating an auction at time `now`.
pub open spec fn create_error(
    start_price: u64,
    reserve_price: u64,
    duration_seconds: i64,
    now: i64,
) -> Option<ErrorCode> {
    if start_price <= reserve_price {
        Some(ErrorCode::InvalidPricing)
    } else if duration_seconds <= 0 {
        Some(ErrorCode::InvalidDuration)
    } else if now + duration_seconds > i64::MAX {
        Some(ErrorCode::MathOverflow)
    } else {
        None
    }
}

/// Opens an auction of `total_tokens` tokens at time `now`. The price starts
/// at `start_price` and reaches `reserve_price` after `duration_seconds`.
pub fn create_auction(
    authority: Pubkey,
    batch_number: u32,
    total_tokens: u64,
    start_price: u64,
    reserve_price: u64,
    duration_seconds: i64,
    now: i64,
) -> (r: Result<Auction, ErrorCode>)
    ensures
        match create_error(start_price, reserve_price, duration_seconds, now) {
            Some(e) => r == Err::<Auction, ErrorCode>(e),
            None => r == Ok::<Auction, ErrorCode>(
                Auction::opened(
                    authority,
                    batch_number,
                    total_tokens,
                    start_price,
                    reserve_price,
                    now,
                    (now + duration_seconds) as i64,
                ),
            ),
        },
        r matches Ok(auction) ==> auction.wf(),
{
    if start_price <= reserve_price {
        return Err(ErrorCode::InvalidPricing);
    }
    if duration_seconds <= 0 {
        return Err(ErrorCode::InvalidDuration);
    }
    let end_time: i64 = match now.checked_add(duration_seconds) {
        Some(t) => t,
        None => {
            return Err(ErrorCode::MathOverflow);
        },
    };
    Ok(
        Auction {
            authority,
            batch_number,
            total_tokens,
            tokens_remaining: total_tokens,
            start_price,
            current_price: start_price,
            reserve_price,
            start_time: now,
            end_time,
            status: AuctionStatus::Active,
            total_raised: 0,
            participant_count: 0,
        },
    )
}

/// Closes the auction at time `now` and fixes the price at which every bid
/// is settled. Returns that clearing price.
pub fn finalize_auction(auction: &mut Auction, now: i64) -> (r: Result<u64, ErrorCode>)
    ensures
        match old(auction).finalize_error(now) {
            Some(e) => r == Err::<u64, ErrorCode>(e) && *final(auction) == *old(auction),
            None => r == Ok::<u64, ErrorCode>(old(auction).clearing_price()) && *final(auction)
                == old(auction).finalized(),
        },
        old(auction).wf() ==> final(auction).wf(),
{
    if auction.status != AuctionStatus::Active && auction.status != AuctionStatus::Completed {
        return Err(ErrorCode::InvalidAuctionStatus);
    }
    if now < auction.end_time && auction.tokens_remaining != 0 {
        return Err(ErrorCode::AuctionNotEnded);
    }
    let clearing_price: u64 = if auction.tokens_remaining == 0 {
        auction.current_price
    } else {
        auction.reserve_price
    };
    auction.status = AuctionStatus::Finalized;
    auction.current_price = clearing_price;
    Ok(clearing_price)
}

/// Withdraws an auction that nobody has bid in.
pub fn cancel_auction(auction: &mut Auction) -> (r: Result<(), ErrorCode>)
    ensures
        match old(auction).cancel_error() {
            Some(e) => r == Err::<(), ErrorCode>(e) && *final(auction) == *old(auction),
            None => r == Ok::<(), ErrorCode>(()) && *final(auction) == old(auction).cancelled(),
        },
        old(auction).wf() ==> final(auction).wf(),
{
    if auction.status != AuctionStatus::Active {
        return Err(ErrorCode::InvalidAuctionStatus);
    }
    if auction.participant_count != 0 {
        return Err(ErrorCode::HasParticipants);
    }
    auction.status = AuctionStatus::Cancelled;
    Ok(())
}

/// Finalizing works once: after it the auction holds the clearing price, and
/// a further attempt, at whatever time, is rejected with
/// `InvalidAuctionStatus` and so leaves that price as it is.
pub proof fn lemma_finalize_only_once(auction: Auction, first: i64, second: i64)
    requires
        auction.finalize_error(first) is None,
    ensures
        auction.finalized().current_price == auction.clearing_price(),
        auction.finalized().finalize_error(second) == Some(ErrorCode::InvalidAuctionStatus),
{
}

/// An active auction can be cancelled if and only if nobody has bid in it.
pub proof fn lemma_cancel_guard(auction: Auction)
    requires
        auction.status == AuctionStatus::Active,
    ensures
        auction.cancel_error() is None <==> auction.participant_count == 0,
{
}

/// A finalized or cancelled auction can be neither finalized nor cancelled.
pub proof fn lemma_closed_for_good(auction: Auction, now: i64)
    requires
        auction.status == AuctionStatus::Finalized || auction.status == AuctionStatus::Cancelled,
    ensures
        auction.finalize_error(now) == Some(ErrorCode::InvalidAuctionStatus),
        auction.cancel_error() == Some(ErrorCode::InvalidAuctionStatus),
{
}

/// The clearing price of a well-formed auction lies between its reserve price
/// and its start price.
pub proof fn lemma_clearing_price_in_range(auction: Auction)
    requires
        auction.wf(),
    ensures
        auction.reserve_price <= auction.clearing_price() <= auction.start_price,
{
}

} // verus!
