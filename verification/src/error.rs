//! The reasons for which the auction rejects a request.

use vstd::prelude::*;

verus! {

/// Why a request to the auction was rejected. Every rejection leaves the
/// auction and its bids exactly as they were.
#[derive(Clone, Copy, Debug, PartialEq, Eq, Structural)]
pub enum ErrorCode {
    /// The start price is not above the reserve price.
    InvalidPricing,
    /// The duration is not positive.
    InvalidDuration,
    /// Bids are accepted only while the auction is active.
    AuctionNotActive,
    /// The bidding window has closed.
    AuctionEnded,
    /// The bid asks for more tokens than remain.
    InsufficientTokens,
    /// A quantity would not fit its integer type.
    MathOverflow,
    /// The auction is not in a state from which the operation is allowed.
    InvalidAuctionStatus,
    /// The auction has neither reached its end time nor sold out.
    AuctionNotEnded,
    /// Bids are settled only once the auction is finalized.
    AuctionNotFinalized,
    /// The bid has been settled before.
    BidAlreadyProcessed,
    /// An auction that has taken a bid cannot be cancelled.
    HasParticipants,
}

impl ErrorCode {
    /// The text shown to whoever made the request.
    pub open spec fn message_text(self) -> Seq<char> {
        match self {
            ErrorCode::InvalidPricing => {
                "Invalid pricing: start price must be greater than reserve price"@
            },
            ErrorCode::InvalidDuration => "Invalid duration: must be greater than 0"@,
            ErrorCode::AuctionNotActive => "Auction is not active"@,
            ErrorCode::AuctionEnded => "Auction has already ended"@,
            ErrorCode::InsufficientTokens => "Insufficient tokens remaining"@,
            ErrorCode::MathOverflow => "Math overflow occurred"@,
            ErrorCode::InvalidAuctionStatus => "Invalid auction status for this operation"@,
            ErrorCode::AuctionNotEnded => "Auction has not ended yet"@,
            ErrorCode::AuctionNotFinalized => "Auction has not been finalized yet"@,
            ErrorCode::BidAlreadyProcessed => "Bid has already been processed"@,
            ErrorCode::HasParticipants => "Cannot cancel auction with participants"@,
        }
    }

    /// The text shown to whoever made the request.
    pub fn message(self) -> (text: &'static str)
        ensures
            text@ == self.message_text(),
    {
        match self {
            ErrorCode::InvalidPricing => {
                "Invalid pricing: start price must be greater than reserve price"
            },
            ErrorCode::InvalidDuration => "Invalid duration: must be greater than 0",
            ErrorCode::AuctionNotActive => "Auction is not active",
            ErrorCode::AuctionEnded => "Auction has already ended",
            ErrorCode::InsufficientTokens => "Insufficient tokens remaining",
            ErrorCode::MathOverflow => "Math overflow occurred",
            ErrorCode::InvalidAuctionStatus => "Invalid auction status for this operation",
            ErrorCode::AuctionNotEnded => "Auction has not ended yet",
            ErrorCode::AuctionNotFinalized => "Auction has not been finalized yet",
            ErrorCode::BidAlreadyProcessed => "Bid has already been processed",
            ErrorCode::HasParticipants => "Cannot cancel auction with participants",
        }
    }
}

} // verus!
