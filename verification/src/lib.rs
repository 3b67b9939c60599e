//! A descending-price (Dutch) auction for a fixed supply of carbon credits,
//! settled against an escrowed payment asset, together with the compliance
//! bookkeeping of the industries that buy them.
//!
//! The library holds the rules only. It never moves funds and never reads a
//! clock: callers pass the current time in, perform the transfers that the
//! library asks for through their ledger, and report how those went.

pub mod accounting;
pub mod auction;
pub mod bidding;
pub mod credits;
pub mod error;
pub mod ledger;
pub mod pricing;
pub mod settlement;
