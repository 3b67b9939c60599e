use anchor_lang::prelude::Pubkey;
use carbon_auction::credits::{
    burn_cct_for_compliance, check_burn, check_verified, check_withdrawal,
    deposit_bond, purchase_cct, register_industry, submit_emission_report, verify_industry,
    withdraw_bond, ComplianceStatus, EmissionReport, ErrorCode, IndustryAccount, MINIMUM_BOND,
};
use carbon_auction::ledger::{Failure, LedgerOutcome};

fn key(n: u8) -> Pubkey {
    Pubkey::new_from_array([n; 32])
}

fn registered() -> IndustryAccount {
    register_industry(key(1), String::from("Acme Steel"), 2_000_000_000, 77).unwrap()
}

fn verified() -> IndustryAccount {
    let mut industry = registered();
    verify_industry(&mut industry).unwrap();
    industry
}

#[test]
fn register_sets_every_field() {
    assert_eq!(
        registered(),
        IndustryAccount {
            authority: key(1),
            company_name: String::from("Acme Steel"),
            bond_amount: 2_000_000_000,
            verified: false,
            cct_balance: 0,
            total_purchased: 0,
            total_burned: 0,
            compliance_status: ComplianceStatus::Pending,
            created_at: 77,
        }
    );
}

#[test]
fn register_needs_the_minimum_bond() {
    assert_eq!(MINIMUM_BOND, 1_000_000_000);
    assert_eq!(
        register_industry(key(1), String::from("Acme Steel"), 999_999_999, 0),
        Err(ErrorCode::InsufficientBond)
    );
    assert_eq!(
        register_industry(key(1), String::from("Acme Steel"), 0, 0),
        Err(ErrorCode::InsufficientBond)
    );
    assert!(register_industry(key(1), String::from("Acme Steel"), 1_000_000_000, 0).is_ok());
}

#[test]
fn verify_makes_the_industry_compliant() {
    let mut industry = registered();
    assert_eq!(verify_industry(&mut industry), Ok(()));
    assert!(industry.verified);
    assert_eq!(industry.compliance_status, ComplianceStatus::Compliant);
    assert_eq!(industry.bond_amount, 2_000_000_000);
}

#[test]
fn verify_twice_is_rejected() {
    let mut industry = verified();
    industry.compliance_status = ComplianceStatus::NonCompliant;
    let before = industry.clone();
    assert_eq!(verify_industry(&mut industry), Err(ErrorCode::AlreadyVerified));
    assert_eq!(industry, before);
}

#[test]
fn deposit_adds_to_the_bond() {
    let mut industry = verified();
    assert_eq!(check_verified(&industry), Ok(()));
    assert_eq!(deposit_bond(&mut industry, 500, LedgerOutcome::Completed), Ok(()));
    assert_eq!(industry.bond_amount, 2_000_000_500);
}

#[test]
fn deposit_of_an_unverified_industry_is_rejected() {
    let mut industry = registered();
    let before = industry.clone();
    assert_eq!(check_verified(&industry), Err(ErrorCode::NotVerified));
    assert_eq!(
        deposit_bond(&mut industry, 500, LedgerOutcome::Completed),
        Err(Failure::Rule(ErrorCode::NotVerified))
    );
    assert_eq!(industry, before);
}

#[test]
fn deposit_whose_transfer_fails_changes_nothing() {
    let mut industry = verified();
    let before = industry.clone();
    assert_eq!(
        deposit_bond(&mut industry, 500, LedgerOutcome::Failed),
        Err(Failure::Ledger)
    );
    assert_eq!(industry, before);
}

#[test]
fn purchase_adds_to_balance_and_total() {
    let mut industry = verified();
    assert_eq!(check_verified(&industry), Ok(()));
    assert_eq!(purchase_cct(&mut industry, 40, LedgerOutcome::Completed), Ok(()));
    assert_eq!(purchase_cct(&mut industry, 2, LedgerOutcome::Completed), Ok(()));
    assert_eq!(industry.cct_balance, 42);
    assert_eq!(industry.total_purchased, 42);
    assert_eq!(industry.total_burned, 0);
}

#[test]
fn purchase_of_an_unverified_industry_is_rejected() {
    let mut industry = registered();
    let before = industry.clone();
    assert_eq!(check_verified(&industry), Err(ErrorCode::NotVerified));
    assert_eq!(
        purchase_cct(&mut industry, 40, LedgerOutcome::Completed),
        Err(Failure::Rule(ErrorCode::NotVerified))
    );
    assert_eq!(industry, before);
}

#[test]
fn purchase_whose_mint_fails_changes_nothing() {
    let mut industry = verified();
    let before = industry.clone();
    assert_eq!(
        purchase_cct(&mut industry, 40, LedgerOutcome::Failed),
        Err(Failure::Ledger)
    );
    assert_eq!(industry, before);
}

#[test]
fn burn_that_covers_the_emissions_makes_compliant() {
    let mut industry = verified();
    purchase_cct(&mut industry, 100, LedgerOutcome::Completed).unwrap();
    industry.compliance_status = ComplianceStatus::Warning;
    assert_eq!(check_burn(&industry, 60), Ok(()));
    assert_eq!(
        burn_cct_for_compliance(&mut industry, 60, 60, LedgerOutcome::Completed),
        Ok(())
    );
    assert_eq!(industry.cct_balance, 40);
    assert_eq!(industry.total_burned, 60);
    assert_eq!(industry.total_purchased, 100);
    assert_eq!(industry.compliance_status, ComplianceStatus::Compliant);
}

#[test]
fn burn_that_falls_short_of_the_emissions_makes_non_compliant() {
    let mut industry = verified();
    purchase_cct(&mut industry, 100, LedgerOutcome::Completed).unwrap();
    assert_eq!(
        burn_cct_for_compliance(&mut industry, 60, 61, LedgerOutcome::Completed),
        Ok(())
    );
    assert_eq!(industry.cct_balance, 40);
    assert_eq!(industry.total_burned, 60);
    assert_eq!(industry.compliance_status, ComplianceStatus::NonCompliant);
}

#[test]
fn burn_of_more_than_is_held_is_rejected() {
    let mut industry = verified();
    purchase_cct(&mut industry, 100, LedgerOutcome::Completed).unwrap();
    let before = industry.clone();
    assert_eq!(check_burn(&industry, 101), Err(ErrorCode::InsufficientCCT));
    assert_eq!(
        burn_cct_for_compliance(&mut industry, 101, 0, LedgerOutcome::Completed),
        Err(Failure::Rule(ErrorCode::InsufficientCCT))
    );
    assert_eq!(industry, before);
    assert_eq!(
        burn_cct_for_compliance(&mut industry, 100, 0, LedgerOutcome::Completed),
        Ok(())
    );
    assert_eq!(industry.cct_balance, 0);
}

#[test]
fn burn_of_an_unverified_industry_is_rejected() {
    let mut industry = registered();
    assert_eq!(check_burn(&industry, 0), Err(ErrorCode::NotVerified));
    assert_eq!(
        burn_cct_for_compliance(&mut industry, 0, 0, LedgerOutcome::Completed),
        Err(Failure::Rule(ErrorCode::NotVerified))
    );
    // Not verified comes before not enough credits.
    assert_eq!(check_burn(&industry, 5), Err(ErrorCode::NotVerified));
}

#[test]
fn burn_whose_ledger_fails_changes_nothing() {
    let mut industry = verified();
    purchase_cct(&mut industry, 100, LedgerOutcome::Completed).unwrap();
    let before = industry.clone();
    assert_eq!(
        burn_cct_for_compliance(&mut industry, 60, 60, LedgerOutcome::Failed),
        Err(Failure::Ledger)
    );
    assert_eq!(industry, before);
}

#[test]
fn credits_bought_are_held_or_burned() {
    let mut industry = verified();
    let steps: [(u64, u64); 4] = [(50, 20), (0, 30), (25, 25), (10, 0)];
    for (bought, burned) in steps {
        purchase_cct(&mut industry, bought, LedgerOutcome::Completed).unwrap();
        burn_cct_for_compliance(&mut industry, burned, 0, LedgerOutcome::Completed).unwrap();
        assert_eq!(
            industry.cct_balance + industry.total_burned,
            industry.total_purchased
        );
    }
    assert_eq!(industry.total_purchased, 85);
    assert_eq!(industry.total_burned, 75);
}

#[test]
fn withdraw_takes_from_the_bond() {
    let mut industry = verified();
    assert_eq!(check_withdrawal(&industry, 2_000_000_000), Ok(()));
    assert_eq!(
        withdraw_bond(&mut industry, 1_500_000_000, LedgerOutcome::Completed),
        Ok(())
    );
    assert_eq!(industry.bond_amount, 500_000_000);
    assert_eq!(
        withdraw_bond(&mut industry, 500_000_000, LedgerOutcome::Completed),
        Ok(())
    );
    assert_eq!(industry.bond_amount, 0);
}

#[test]
fn withdraw_of_an_industry_that_is_not_compliant_is_rejected() {
    for status in [
        ComplianceStatus::Pending,
        ComplianceStatus::NonCompliant,
        ComplianceStatus::Warning,
    ] {
        let mut industry = verified();
        industry.compliance_status = status;
        let before = industry.clone();
        assert_eq!(check_withdrawal(&industry, 1), Err(ErrorCode::NotCompliant));
        assert_eq!(
            withdraw_bond(&mut industry, 1, LedgerOutcome::Completed),
            Err(Failure::Rule(ErrorCode::NotCompliant))
        );
        assert_eq!(industry, before);
    }
}

#[test]
fn withdraw_of_more_than_the_bond_is_rejected() {
    let mut industry = verified();
    let before = industry.clone();
    assert_eq!(
        check_withdrawal(&industry, 2_000_000_001),
        Err(ErrorCode::InsufficientBond)
    );
    assert_eq!(
        withdraw_bond(&mut industry, 2_000_000_001, LedgerOutcome::Completed),
        Err(Failure::Rule(ErrorCode::InsufficientBond))
    );
    assert_eq!(industry, before);
}

#[test]
fn withdraw_whose_transfer_fails_changes_nothing() {
    let mut industry = verified();
    let before = industry.clone();
    assert_eq!(
        withdraw_bond(&mut industry, 1, LedgerOutcome::Failed),
        Err(Failure::Ledger)
    );
    assert_eq!(industry, before);
}

#[test]
fn report_sets_every_field() {
    assert_eq!(
        submit_emission_report(key(5), 1_200, String::from("2024-Q1"), 99),
        EmissionReport {
            industry: key(5),
            co2_emitted: 1_200,
            report_period: String::from("2024-Q1"),
            submitted_at: 99,
            verified: false,
        }
    );
}
