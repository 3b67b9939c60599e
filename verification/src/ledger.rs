//! The library's view of the ledger service that holds the funds.
//!
//! The ledger is outside the library. A function whose rules ask for a
//! movement of funds comes in two parts: one that changes nothing and says
//! what has to be moved, and one that takes the ledger's answer and applies
//! the operation only where the ledger has done its part.

use vstd::prelude::*;

verus! {

/// The address of an account on the ledger: `Pubkey` of `anchor_lang`
/// (`solana_program::pubkey::Pubkey`). The library stores and hands on such
/// addresses and never looks inside one, so nothing is claimed of the type.
#[verifier::external_type_specification]
#[verifier::external_body]
pub struct ExPubkey(anchor_lang::prelude::Pubkey);

/// What the ledger answered to one request to move an amount: a transfer, a
/// mint or a burn.
#[derive(Clone, Copy, Debug, PartialEq, Eq, Structural)]
pub enum LedgerOutcome {
    /// The amount was moved.
    Completed,
    /// Nothing was moved, for want of funds or for any other reason.
    Failed,
}

/// Why an operation that depends on the ledger was not applied.
#[derive(Debug, PartialEq, Eq)]
pub enum Failure<E> {
    /// A rule of the library rejected the request; the ledger was not needed.
    Rule(E),
    /// The rules allowed the request and the ledger did not move the funds.
    Ledger,
}

} // verus!
