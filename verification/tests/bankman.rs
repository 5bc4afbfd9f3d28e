//! Tests of the collateral registry: bank creation, collateral
//! authorization, hard-cap changes, role rotation and author-fee
//! withdrawal, with their authorization and precondition errors.

use cashio::bankman::{
    authorize_collateral, new_bank, set_bankman, set_collateral_hard_cap, set_curator,
    withdraw_author_fee, ErrorCode, WithdrawAuthorFee,
};
use cashio::instructions::TokenTransfer;
use cashio::state::{Bank, Collateral, CollateralRegistry};

const BANK_KEY: u64 = 11;
const CRATE_TOKEN: u64 = 12;
const CRATE_MINT: u64 = 13;
const ADMIN: u64 = 14;
const STRANGER: u64 = 66;

fn fresh_registry() -> CollateralRegistry {
    let (registry, _) = new_bank(BANK_KEY, CRATE_TOKEN, CRATE_MINT, 0, 6, false, ADMIN, 100).unwrap();
    registry
}

#[test]
fn test_new_bank_succeeds_with_admin_as_both_roles() {
    let (registry, event) =
        new_bank(BANK_KEY, CRATE_TOKEN, CRATE_MINT, 0, 6, false, ADMIN, 100).unwrap();
    assert_eq!(registry.bank.curator, ADMIN);
    assert_eq!(registry.bank.bankman, ADMIN);
    assert_eq!(registry.bank.crate_token, CRATE_TOKEN);
    assert_eq!(registry.bank.crate_mint, CRATE_MINT);
    assert_eq!(registry.bank_key, BANK_KEY);
    assert!(registry.collaterals.is_empty());
    assert_eq!(event.bank, BANK_KEY);
    assert_eq!(event.curator, ADMIN);
    assert_eq!(event.timestamp, 100);
}

#[test]
fn test_new_bank_rejects_nonzero_supply() {
    let r = new_bank(BANK_KEY, CRATE_TOKEN, CRATE_MINT, 1, 6, false, ADMIN, 100);
    assert_eq!(r.unwrap_err(), ErrorCode::NewBankSupplyMustBeZero);
}

#[test]
fn test_new_bank_rejects_wrong_decimals() {
    let r = new_bank(BANK_KEY, CRATE_TOKEN, CRATE_MINT, 0, 9, false, ADMIN, 100);
    assert_eq!(r.unwrap_err(), ErrorCode::NewBankWrongDecimals);
}

#[test]
fn test_new_bank_rejects_already_initialized() {
    // The same stablecoin mint a second time: the crate token exists.
    let r = new_bank(BANK_KEY, CRATE_TOKEN, CRATE_MINT, 0, 6, true, ADMIN, 100);
    assert_eq!(r.unwrap_err(), ErrorCode::NewBankAlreadyInitialized);
}

#[test]
fn test_authorize_collateral_creates_record_with_zero_cap() {
    let mut registry = fresh_registry();
    let event = authorize_collateral(&mut registry, 21, 31, ADMIN, 200).unwrap();
    assert_eq!(registry.collaterals.len(), 1);
    let entry = registry.collaterals[0];
    assert_eq!(entry.key, 21);
    assert_eq!(
        entry.collateral,
        Collateral { bank: BANK_KEY, mint: 31, hard_cap: 0 }
    );
    assert_eq!(event.bank, BANK_KEY);
    assert_eq!(event.collateral, 21);
    assert_eq!(event.curator, ADMIN);
    assert_eq!(event.mint, 31);
    assert_eq!(event.timestamp, 200);
}

#[test]
fn test_authorize_collateral_rejects_non_curator() {
    let mut registry = fresh_registry();
    let before = registry.clone();
    let r = authorize_collateral(&mut registry, 21, 31, STRANGER, 200);
    assert_eq!(r.unwrap_err(), ErrorCode::UnauthorizedNotCurator);
    assert_eq!(registry, before);
}

#[test]
fn test_authorize_collateral_rejects_duplicate_pool() {
    let mut registry = fresh_registry();
    authorize_collateral(&mut registry, 21, 31, ADMIN, 200).unwrap();
    let before = registry.clone();
    let r = authorize_collateral(&mut registry, 22, 31, ADMIN, 201);
    assert_eq!(r.unwrap_err(), ErrorCode::PoolAlreadyAdded);
    assert_eq!(registry, before);
}

#[test]
fn test_set_collateral_hard_cap_updates_only_the_cap() {
    let mut registry = fresh_registry();
    authorize_collateral(&mut registry, 21, 31, ADMIN, 200).unwrap();
    authorize_collateral(&mut registry, 22, 32, ADMIN, 201).unwrap();
    let event = set_collateral_hard_cap(&mut registry, 22, 5_000, ADMIN, 300).unwrap();
    assert_eq!(
        registry.collaterals[1].collateral,
        Collateral { bank: BANK_KEY, mint: 32, hard_cap: 5_000 }
    );
    assert_eq!(
        registry.collaterals[0].collateral,
        Collateral { bank: BANK_KEY, mint: 31, hard_cap: 0 }
    );
    assert_eq!(event.bank, BANK_KEY);
    assert_eq!(event.collateral, 22);
    assert_eq!(event.hard_cap, 5_000);
    assert_eq!(event.timestamp, 300);
}

#[test]
fn test_set_collateral_hard_cap_rejects_non_curator() {
    let mut registry = fresh_registry();
    authorize_collateral(&mut registry, 21, 31, ADMIN, 200).unwrap();
    let before = registry.clone();
    let r = set_collateral_hard_cap(&mut registry, 21, 5_000, STRANGER, 300);
    assert_eq!(r.unwrap_err(), ErrorCode::UnauthorizedNotCurator);
    assert_eq!(registry, before);
}

#[test]
fn test_set_collateral_hard_cap_rejects_unknown_record() {
    let mut registry = fresh_registry();
    authorize_collateral(&mut registry, 21, 31, ADMIN, 200).unwrap();
    let before = registry.clone();
    let r = set_collateral_hard_cap(&mut registry, 99, 5_000, ADMIN, 300);
    assert_eq!(r.unwrap_err(), ErrorCode::KeyMismatch);
    assert_eq!(registry, before);
}

#[test]
fn test_set_curator_rotates_curator_only() {
    let mut registry = fresh_registry();
    let event = set_curator(&mut registry, 55, ADMIN, 400).unwrap();
    assert_eq!(registry.bank.curator, 55);
    assert_eq!(registry.bank.bankman, ADMIN);
    assert_eq!(event.bank, BANK_KEY);
    assert_eq!(event.curator, 55);
    assert_eq!(event.previous_curator, ADMIN);
    assert_eq!(event.bankman, ADMIN);
    assert_eq!(event.timestamp, 400);
    // The old curator can no longer authorize collateral.
    let r = authorize_collateral(&mut registry, 21, 31, ADMIN, 401);
    assert_eq!(r.unwrap_err(), ErrorCode::UnauthorizedNotCurator);
}

#[test]
fn test_set_curator_rejects_non_bankman() {
    let mut registry = fresh_registry();
    let before = registry.clone();
    let r = set_curator(&mut registry, 55, STRANGER, 400);
    assert_eq!(r.unwrap_err(), ErrorCode::UnauthorizedNotBankman);
    assert_eq!(registry, before);
}

#[test]
fn test_set_bankman_rotates_bankman_only() {
    let mut registry = fresh_registry();
    let event = set_bankman(&mut registry, 77, ADMIN, 500).unwrap();
    assert_eq!(registry.bank.bankman, 77);
    assert_eq!(registry.bank.curator, ADMIN);
    assert_eq!(event.bank, BANK_KEY);
    assert_eq!(event.bankman, 77);
    assert_eq!(event.previous_bankman, ADMIN);
    assert_eq!(event.timestamp, 500);
    // The old bankman can no longer rotate roles.
    let r = set_bankman(&mut registry, 78, ADMIN, 501);
    assert_eq!(r.unwrap_err(), ErrorCode::UnauthorizedNotBankman);
}

#[test]
fn test_set_bankman_rejects_non_bankman() {
    let mut registry = fresh_registry();
    let before = registry.clone();
    let r = set_bankman(&mut registry, 77, STRANGER, 500);
    assert_eq!(r.unwrap_err(), ErrorCode::UnauthorizedNotBankman);
    assert_eq!(registry, before);
}

fn fee_accounts() -> WithdrawAuthorFee {
    WithdrawAuthorFee {
        bank_key: BANK_KEY,
        bank: Bank {
            crate_token: CRATE_TOKEN,
            crate_mint: CRATE_MINT,
            curator: ADMIN,
            bankman: ADMIN,
        },
        bankman: ADMIN,
        collateral: Collateral { bank: BANK_KEY, mint: 31, hard_cap: 1_000 },
        author_fees_key: 41,
        author_fees_owner: BANK_KEY,
        author_fees_mint: 31,
        destination_key: 42,
    }
}

#[test]
fn test_withdraw_author_fee_builds_transfer() {
    let t = withdraw_author_fee(&fee_accounts(), 250).unwrap();
    assert_eq!(
        t,
        TokenTransfer { from: 41, to: 42, authority: BANK_KEY, amount: 250 }
    );
}

#[test]
fn test_withdraw_author_fee_rejects_non_bankman() {
    let mut acc = fee_accounts();
    acc.bankman = STRANGER;
    assert_eq!(
        withdraw_author_fee(&acc, 250).unwrap_err(),
        ErrorCode::UnauthorizedNotBankman
    );
}

#[test]
fn test_withdraw_author_fee_rejects_same_source_and_destination() {
    let mut acc = fee_accounts();
    acc.destination_key = acc.author_fees_key;
    assert_eq!(
        withdraw_author_fee(&acc, 250).unwrap_err(),
        ErrorCode::SourceDestinationMatch
    );
}

#[test]
fn test_withdraw_author_fee_rejects_wrong_references() {
    let mut wrong_bank = fee_accounts();
    wrong_bank.collateral.bank = 99;
    assert_eq!(
        withdraw_author_fee(&wrong_bank, 250).unwrap_err(),
        ErrorCode::KeyMismatch
    );
    let mut wrong_owner = fee_accounts();
    wrong_owner.author_fees_owner = 99;
    assert_eq!(
        withdraw_author_fee(&wrong_owner, 250).unwrap_err(),
        ErrorCode::KeyMismatch
    );
    let mut wrong_mint = fee_accounts();
    wrong_mint.author_fees_mint = 99;
    assert_eq!(
        withdraw_author_fee(&wrong_mint, 250).unwrap_err(),
        ErrorCode::KeyMismatch
    );
}
