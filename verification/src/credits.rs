//! The compliance register: the industries that take part, the bond each has
//! put up, the credits each has bought and burned, and their emission
//! reports.
//!
//! Bonds, credits and burns are held by the ledger. Each function that
//! depends on it has a check that changes nothing (`check_verified`,
//! `check_burn`, `check_withdrawal`); the caller runs it, asks the ledger to
//! move the amount, and hands the ledger's answer to the function that
//! applies the step.

use crate::ledger::{Failure, LedgerOutcome};
use anchor_lang::prelude::Pubkey;
use vstd::prelude::*;

verus! {

/// The smallest bond that an industry can register with.
pub const MINIMUM_BOND: u64 = 1_000_000_000;

/// How an industry stands with its obligations.
#[derive(Clone, Copy, Debug, PartialEq, Eq, Structural)]
pub enum ComplianceStatus {
    /// Registered and not verified yet.
    Pending,
    /// Verified, or burned at least as much as it emitted.
    Compliant,
    /// Burned less than it emitted.
    NonCompliant,
    Warning,
}

/// Why a request to the register was rejected. Every rejection leaves the
/// register exactly as it was.
#[derive(Clone, Copy, Debug, PartialEq, Eq, Structural)]
pub enum ErrorCode {
    /// The bond is below the minimum, or below the amount to withdraw.
    InsufficientBond,
    /// The industry has not been verified.
    NotVerified,
    /// The industry has been verified before.
    AlreadyVerified,
    /// The industry holds fewer credits than it wants to burn.
    InsufficientCCT,
    /// Only a compliant industry can withdraw its bond.
    NotCompliant,
}

impl ErrorCode {
    /// The text shown to whoever made the request.
    pub open spec fn message_text(self) -> Seq<char> {
        match self {
            ErrorCode::InsufficientBond => "Insufficient bond amount. Minimum 1000 USDC required."@,
            ErrorCode::NotVerified => "Industry is not verified yet."@,
            ErrorCode::AlreadyVerified => "Industry is already verified."@,
            ErrorCode::InsufficientCCT => "Insufficient CCT balance."@,
            ErrorCode::NotCompliant => "Industry is not compliant. Cannot withdraw bond."@,
        }
    }

    /// The text shown to whoever made the request.
    pub fn message(self) -> (text: &'static str)
        ensures
            text@ == self.message_text(),
    {
        match self {
            ErrorCode::InsufficientBond => "Insufficient bond amount. Minimum 1000 USDC required.",
            ErrorCode::NotVerified => "Industry is not verified yet.",
            ErrorCode::AlreadyVerified => "Industry is already verified.",
            ErrorCode::InsufficientCCT => "Insufficient CCT balance.",
            ErrorCode::NotCompliant => "Industry is not compliant. Cannot withdraw bond.",
        }
    }
}

/// One industry in the register.
#[derive(Debug, PartialEq, Eq)]
pub struct IndustryAccount {
    /// Who acts for the industry.
    pub authority: Pubkey,
    pub company_name: String,
    /// The bond that the industry has put up.
    pub bond_amount: u64,
    pub verified: bool,
    /// The credits that the industry holds.
    pub cct_balance: u64,
    /// All credits it ever bought.
    pub total_purchased: u64,
    /// All credits it ever burned.
    pub total_burned: u64,
    pub compliance_status: ComplianceStatus,
    /// When it registered.
    pub created_at: i64,
}

/// One report of an industry on what it emitted.
#[derive(Debug, PartialEq, Eq)]
pub struct EmissionReport {
    /// The account of the industry that reports.
    pub industry: Pubkey,
    /// Tonnes of carbon dioxide emitted in the period.
    pub co2_emitted: u64,
    pub report_period: String,
    /// When the report was handed in.
    pub submitted_at: i64,
    pub verified: bool,
}

impl Clone for IndustryAccount {
    fn clone(&self) -> (copy: Self)
        ensures
            copy == *self,
    {
        IndustryAccount {
            authority: self.authority,
            company_name: self.company_name.clone(),
            bond_amount: self.bond_amount,
            verified: self.verified,
            cct_balance: self.cct_balance,
            total_purchased: self.total_purchased,
            total_burned: self.total_burned,
            compliance_status: self.compliance_status,
            created_at: self.created_at,
        }
    }
}

impl Clone for EmissionReport {
    fn clone(&self) -> (copy: Self)
        ensures
            copy == *self,
    {
        EmissionReport {
            industry: self.industry,
            co2_emitted: self.co2_emitted,
            report_period: self.report_period.clone(),
            submitted_at: self.submitted_at,
            verified: self.verified,
        }
    }
}

impl IndustryAccount {
    /// What holds of every account that was made by `register_industry` and
    /// changed only by the functions of this library: every credit bought is
    /// either still held or was burned, and only a verified industry has
    /// bought any.
    pub open spec fn wf(self) -> bool {
        &&& self.cct_balance + self.total_burned == self.total_purchased
        &&& (!self.verified ==> self.total_purchased == 0 && self.compliance_status
            == ComplianceStatus::Pending)
    }

    /// The rule, if any, that forbids a deposit to the bond or a purchase of
    /// credits.
    pub open spec fn unverified_error(self) -> Option<ErrorCode> {
        if !self.verified {
            Some(ErrorCode::NotVerified)
        } else {
            None
        }
    }

    /// The first rule, if any, that forbids burning `amount` credits.
    pub open spec fn burn_error(self, amount: u64) -> Option<ErrorCode> {
        if !self.verified {
            Some(ErrorCode::NotVerified)
        } else if self.cct_balance < amount {
            Some(ErrorCode::InsufficientCCT)
        } else {
            None
        }
    }

    /// The first rule, if any, that forbids withdrawing `amount` from the
    /// bond.
    pub open spec fn withdrawal_error(self, amount: u64) -> Option<ErrorCode> {
        if self.compliance_status != ComplianceStatus::Compliant {
            Some(ErrorCode::NotCompliant)
        } else if self.bond_amount < amount {
            Some(ErrorCode::InsufficientBond)
        } else {
            None
        }
    }

    /// How the industry stands after burning `amount` credits against
    /// emissions of `emission_amount`.
    pub open spec fn standing_after_burn(amount: u64, emission_amount: u64) -> ComplianceStatus {
        if amount >= emission_amount {
            ComplianceStatus::Compliant
        } else {
            ComplianceStatus::NonCompliant
        }
    }
}

/// What a step that depends on the ledger answers and leaves behind: where
/// `rule` forbids it, that rule and the account as it was `before`; where the
/// `ledger` failed, that failure and the account as it was; else success and
/// the account as it is `after` the step.
pub open spec fn applied(
    rule: Option<ErrorCode>,
    ledger: LedgerOutcome,
    before: IndustryAccount,
    after: IndustryAccount,
    answer: Result<(), Failure<ErrorCode>>,
    left: IndustryAccount,
) -> bool {
    match rule {
        Some(e) => answer == Err::<(), Failure<ErrorCode>>(Failure::Rule(e)) && left == before,
        None => match ledger {
            LedgerOutcome::Failed => answer == Err::<(), Failure<ErrorCode>>(Failure::Ledger)
                && left == before,
            LedgerOutcome::Completed => answer == Ok::<(), Failure<ErrorCode>>(()) && left
                == after,
        },
    }
}

/// Registers an industry at time `now` with the bond it has pledged. It
/// starts unverified, with no credits.
pub fn register_industry(
    authority: Pubkey,
    company_name: String,
    bond_amount: u64,
    now: i64,
) -> (r: Result<IndustryAccount, ErrorCode>)
    ensures
        bond_amount < MINIMUM_BOND ==> r == Err::<IndustryAccount, ErrorCode>(
            ErrorCode::InsufficientBond,
        ),
        bond_amount >= MINIMUM_BOND ==> r == Ok::<IndustryAccount, ErrorCode>(
            (IndustryAccount {
                authority,
                company_name,
                bond_amount,
                verified: false,
                cct_balance: 0,
                total_purchased: 0,
                total_burned: 0,
                compliance_status: ComplianceStatus::Pending,
                created_at: now,
            }),
        ),
        r matches Ok(industry) ==> industry.wf(),
{
    if bond_amount < MINIMUM_BOND {
        return Err(ErrorCode::InsufficientBond);
    }
    Ok(
        IndustryAccount {
            authority,
            company_name,
            bond_amount,
            verified: false,
            cct_balance: 0,
            total_purchased: 0,
            total_burned: 0,
            compliance_status: ComplianceStatus::Pending,
            created_at: now,
        },
    )
}

/// Marks the industry as verified, which makes it compliant.
pub fn verify_industry(industry: &mut IndustryAccount) -> (r: Result<(), ErrorCode>)
    ensures
        old(industry).verified ==> r == Err::<(), ErrorCode>(ErrorCode::AlreadyVerified)
            && *final(industry) == *old(industry),
        !old(industry).verified ==> r == Ok::<(), ErrorCode>(()) && *final(industry)
            == (IndustryAccount {
            verified: true,
            compliance_status: ComplianceStatus::Compliant,
            ..*old(industry)
        }),
        old(industry).wf() ==> final(industry).wf(),
{
    if industry.verified {
        return Err(ErrorCode::AlreadyVerified);
    }
    industry.verified = true;
    industry.compliance_status = ComplianceStatus::Compliant;
    Ok(())
}

/// Whether the industry may add to its bond or buy credits: it may once it
/// is verified. Changes nothing.
pub fn check_verified(industry: &IndustryAccount) -> (r: Result<(), ErrorCode>)
    ensures
        match industry.unverified_error() {
            Some(e) => r == Err::<(), ErrorCode>(e),
            None => r == Ok::<(), ErrorCode>(()),
        },
{
    if !industry.verified {
        return Err(ErrorCode::NotVerified);
    }
    Ok(())
}

/// Adds `amount` to the bond of a verified industry. `transfer` is the
/// ledger's answer to moving `amount` from the industry to the bond vault.
pub fn deposit_bond(
    industry: &mut IndustryAccount,
    amount: u64,
    transfer: LedgerOutcome,
) -> (r: Result<(), Failure<ErrorCode>>)
    requires
        old(industry).verified && transfer == LedgerOutcome::Completed
            ==> old(industry).bond_amount + amount <= u64::MAX,
    ensures
        applied(
            old(industry).unverified_error(),
            transfer,
            *old(industry),
            (IndustryAccount {
                bond_amount: (old(industry).bond_amount + amount) as u64,
                ..*old(industry)
            }),
            r,
            *final(industry),
        ),
        old(industry).wf() ==> final(industry).wf(),
{
    match check_verified(industry) {
        Ok(()) => {},
        Err(e) => {
            return Err(Failure::Rule(e));
        },
    }
    match transfer {
        LedgerOutcome::Failed => {
            return Err(Failure::Ledger);
        },
        LedgerOutcome::Completed => {},
    }
    industry.bond_amount = industry.bond_amount + amount;
    Ok(())
}

/// Credits a verified industry with `amount` credits. `mint` is the ledger's
/// answer to minting `amount` credits to the industry.
pub fn purchase_cct(
    industry: &mut IndustryAccount,
    amount: u64,
    mint: LedgerOutcome,
) -> (r: Result<(), Failure<ErrorCode>>)
    requires
        old(industry).verified && mint == LedgerOutcome::Completed
            ==> old(industry).cct_balance + amount <= u64::MAX
            && old(industry).total_purchased + amount <= u64::MAX,
    ensures
        applied(
            old(industry).unverified_error(),
            mint,
            *old(industry),
            (IndustryAccount {
                cct_balance: (old(industry).cct_balance + amount) as u64,
                total_purchased: (old(industry).total_purchased + amount) as u64,
                ..*old(industry)
            }),
            r,
            *final(industry),
        ),
        old(industry).wf() ==> final(industry).wf(),
{
    match check_verified(industry) {
        Ok(()) => {},
        Err(e) => {
            return Err(Failure::Rule(e));
        },
    }
    match mint {
        LedgerOutcome::Failed => {
            return Err(Failure::Ledger);
        },
        LedgerOutcome::Completed => {},
    }
    industry.cct_balance = industry.cct_balance + amount;
    industry.total_purchased = industry.total_purchased + amount;
    Ok(())
}

/// Whether the industry may burn `amount` credits. Changes nothing.
pub fn check_burn(industry: &IndustryAccount, amount: u64) -> (r: Result<(), ErrorCode>)
    ensures
        match industry.burn_error(amount) {
            Some(e) => r == Err::<(), ErrorCode>(e),
            None => r == Ok::<(), ErrorCode>(()),
        },
{
    if !industry.verified {
        return Err(ErrorCode::NotVerified);
    }
    if industry.cct_balance < amount {
        return Err(ErrorCode::InsufficientCCT);
    }
    Ok(())
}

/// Burns `amount` credits of the industry against emissions of
/// `emission_amount`; the industry is compliant afterwards if it burned at
/// least as much as it emitted, and non-compliant if not. `burn` is the
/// ledger's answer to burning `amount` credits of the industry.
pub fn burn_cct_for_compliance(
    industry: &mut IndustryAccount,
    amount: u64,
    emission_amount: u64,
    burn: LedgerOutcome,
) -> (r: Result<(), Failure<ErrorCode>>)
    requires
        old(industry).burn_error(amount) is None && burn == LedgerOutcome::Completed
            ==> old(industry).total_burned + amount <= u64::MAX,
    ensures
        applied(
            old(industry).burn_error(amount),
            burn,
            *old(industry),
            (IndustryAccount {
                cct_balance: (old(industry).cct_balance - amount) as u64,
                total_burned: (old(industry).total_burned + amount) as u64,
                compliance_status: IndustryAccount::standing_after_burn(amount, emission_amount),
                ..*old(industry)
            }),
            r,
            *final(industry),
        ),
        old(industry).wf() ==> final(industry).wf(),
{
    match check_burn(industry, amount) {
        Ok(()) => {},
        Err(e) => {
            return Err(Failure::Rule(e));
        },
    }
    match burn {
        LedgerOutcome::Failed => {
            return Err(Failure::Ledger);
        },
        LedgerOutcome::Completed => {},
    }
    industry.cct_balance = industry.cct_balance - amount;
    industry.total_burned = industry.total_burned + amount;
    if amount >= emission_amount {
        industry.compliance_status = ComplianceStatus::Compliant;
    } else {
        industry.compliance_status = ComplianceStatus::NonCompliant;
    }
    Ok(())
}

/// Files a report of `co2_emitted` tonnes for `report_period`, handed in at
/// time `now` by the industry whose account is `industry`. A report starts
/// unverified.
pub fn submit_emission_report(
    industry: Pubkey,
    co2_emitted: u64,
    report_period: String,
    now: i64,
) -> (report: EmissionReport)
    ensures
        report == (EmissionReport {
            industry,
            co2_emitted,
            report_period,
            submitted_at: now,
            verified: false,
        }),
{
    EmissionReport { industry, co2_emitted, report_period, submitted_at: now, verified: false }
}

/// Whether the industry may take `amount` out of its bond. Changes nothing.
pub fn check_withdrawal(industry: &IndustryAccount, amount: u64) -> (r: Result<(), ErrorCode>)
    ensures
        match industry.withdrawal_error(amount) {
            Some(e) => r == Err::<(), ErrorCode>(e),
            None => r == Ok::<(), ErrorCode>(()),
        },
{
    if industry.compliance_status != ComplianceStatus::Compliant {
        return Err(ErrorCode::NotCompliant);
    }
    if industry.bond_amount < amount {
        return Err(ErrorCode::InsufficientBond);
    }
    Ok(())
}

/// Takes `amount` out of the bond of a compliant industry. `transfer` is the
/// ledger's answer to moving `amount` from the bond vault to the industry.
pub fn withdraw_bond(
    industry: &mut IndustryAccount,
    amount: u64,
    transfer: LedgerOutcome,
) -> (r: Result<(), Failure<ErrorCode>>)
    ensures
        applied(
            old(industry).withdrawal_error(amount),
            transfer,
            *old(industry),
            (IndustryAccount {
                bond_amount: (old(industry).bond_amount - amount) as u64,
                ..*old(industry)
            }),
            r,
            *final(industry),
        ),
        old(industry).wf() ==> final(industry).wf(),
{
    match check_withdrawal(industry, amount) {
        Ok(()) => {},
        Err(e) => {
            return Err(Failure::Rule(e));
        },
    }
    match transfer {
        LedgerOutcome::Failed => {
            return Err(Failure::Ledger);
        },
        LedgerOutcome::Completed => {},
    }
    industry.bond_amount = industry.bond_amount - amount;
    Ok(())
}

/// In a well-formed account, burning credits that the industry holds cannot
/// overflow the count of burned credits: `burn_cct_for_compliance` asks
/// nothing of such an account.
pub proof fn lemma_burn_fits(industry: IndustryAccount, amount: u64)
    requires
        industry.wf(),
        industry.burn_error(amount) is None,
    ensures
        industry.total_burned + amount <= u64::MAX,
{
}

} // verus!
