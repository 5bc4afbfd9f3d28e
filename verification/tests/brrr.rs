//! Tests of the print and burn orchestration: cross-reference validation,
//! the hard cap, conversion failures, zero-amount no-ops, and the exact
//! instructions and events of successful operations.

use cashio::brrr::{burn_cash, print_cash, BrrrCommon, BurnCash, ErrorCode, PrintCash, SaberSwapAccounts};
use cashio::events::{BurnCashEvent, PrintCashEvent};
use cashio::state::{Bank, Collateral};

const BANK_KEY: u64 = 11;
const CRATE_TOKEN: u64 = 12;
const CRATE_MINT: u64 = 13;
const ADMIN: u64 = 14;
const COLLATERAL_MINT: u64 = 31;
const POOL_MINT: u64 = 32;
const CRATE_VAULT: u64 = 33;
const RESERVE_A: u64 = 34;
const RESERVE_B: u64 = 35;
const DEPOSITOR: u64 = 51;
const DEPOSITOR_SOURCE: u64 = 52;
const MINT_DESTINATION: u64 = 53;
const BURNER: u64 = 54;
const BURNED_SOURCE: u64 = 55;
const WITHDRAW_DESTINATION: u64 = 56;
const AUTHOR_FEES: u64 = 57;
const PROTOCOL_FEES: u64 = 58;
const ISSUE_AUTHORITY: u64 = 91;
const WITHDRAW_AUTHORITY: u64 = 92;
const NOW: i64 = 1_000;

/// A balanced pool (equal reserves, settled ramp): its invariant is exactly
/// `2 * reserve`, so the virtual price is `2 * reserve / supply`.
fn pool(lp_mint_decimals: u8, lp_mint_supply: u64, reserve: u64) -> SaberSwapAccounts {
    SaberSwapAccounts {
        arrow_mint: COLLATERAL_MINT,
        arrow_vendor_miner_mint: POOL_MINT,
        swap_pool_mint: POOL_MINT,
        swap_token_a_reserves: RESERVE_A,
        swap_token_b_reserves: RESERVE_B,
        pool_mint_key: POOL_MINT,
        pool_mint_decimals: lp_mint_decimals,
        pool_mint_supply: lp_mint_supply,
        reserve_a_key: RESERVE_A,
        reserve_a_amount: reserve,
        reserve_b_key: RESERVE_B,
        reserve_b_amount: reserve,
        initial_amp_factor: 100,
        target_amp_factor: 100,
        start_ramp_ts: 0,
        stop_ramp_ts: 0,
    }
}

fn common(vault_balance: u64, hard_cap: u64, saber_swap: SaberSwapAccounts) -> BrrrCommon {
    BrrrCommon {
        bank_key: BANK_KEY,
        bank: Bank {
            crate_token: CRATE_TOKEN,
            crate_mint: CRATE_MINT,
            curator: ADMIN,
            bankman: ADMIN,
        },
        collateral: Collateral { bank: BANK_KEY, mint: COLLATERAL_MINT, hard_cap },
        crate_token_key: CRATE_TOKEN,
        crate_token_mint: CRATE_MINT,
        crate_mint_key: CRATE_MINT,
        crate_collateral_tokens_key: CRATE_VAULT,
        crate_collateral_tokens_owner: CRATE_TOKEN,
        crate_collateral_tokens_mint: COLLATERAL_MINT,
        crate_collateral_tokens_amount: vault_balance,
        saber_swap,
    }
}

fn print_accounts(vault_balance: u64, hard_cap: u64, saber_swap: SaberSwapAccounts) -> PrintCash {
    PrintCash {
        common: common(vault_balance, hard_cap, saber_swap),
        depositor: DEPOSITOR,
        depositor_source_key: DEPOSITOR_SOURCE,
        depositor_source_owner: DEPOSITOR,
        depositor_source_mint: COLLATERAL_MINT,
        mint_destination_key: MINT_DESTINATION,
        mint_destination_mint: CRATE_MINT,
        issue_authority: ISSUE_AUTHORITY,
    }
}

fn burn_accounts(vault_balance: u64, saber_swap: SaberSwapAccounts) -> BurnCash {
    BurnCash {
        common: common(vault_balance, 1_000_000, saber_swap),
        burner: BURNER,
        burned_cash_source_key: BURNED_SOURCE,
        burned_cash_source_owner: BURNER,
        burned_cash_source_mint: CRATE_MINT,
        withdraw_destination_key: WITHDRAW_DESTINATION,
        withdraw_destination_mint: COLLATERAL_MINT,
        author_fee_destination_key: AUTHOR_FEES,
        protocol_fee_destination_key: PROTOCOL_FEES,
        withdraw_authority: WITHDRAW_AUTHORITY,
    }
}

#[test]
fn test_print_succeeds_at_par() {
    let acc = print_accounts(900, 1_000, pool(6, 2_000_000, 1_000_000));
    let action = print_cash(&acc, 50, ISSUE_AUTHORITY, true, NOW)
        .unwrap()
        .unwrap();
    assert_eq!(action.transfer.from, DEPOSITOR_SOURCE);
    assert_eq!(action.transfer.to, CRATE_VAULT);
    assert_eq!(action.transfer.authority, DEPOSITOR);
    assert_eq!(action.transfer.amount, 50);
    assert_eq!(action.issue.crate_token, CRATE_TOKEN);
    assert_eq!(action.issue.crate_mint, CRATE_MINT);
    assert_eq!(action.issue.issue_authority, ISSUE_AUTHORITY);
    assert_eq!(action.issue.mint_destination, MINT_DESTINATION);
    assert_eq!(action.issue.amount, 50);
    assert_eq!(
        action.event,
        PrintCashEvent {
            depositor: DEPOSITOR,
            collateral_mint: COLLATERAL_MINT,
            print_amount: 50,
            deposit_amount: 50,
            timestamp: NOW,
        }
    );
}

#[test]
fn test_print_amount_follows_virtual_price() {
    // Virtual price 2: each deposited share prints two stablecoin units.
    let acc = print_accounts(0, 1_000_000, pool(6, 1_000_000, 1_000_000));
    let action = print_cash(&acc, 1_000, ISSUE_AUTHORITY, true, NOW)
        .unwrap()
        .unwrap();
    assert_eq!(action.issue.amount, 2_000);
    assert_eq!(action.transfer.amount, 1_000);
}

#[test]
fn test_print_hard_cap_hit() {
    // Balance 900, cap 1000: a deposit of 200 would reach 1100.
    let acc = print_accounts(900, 1_000, pool(6, 2_000_000, 1_000_000));
    let r = print_cash(&acc, 200, ISSUE_AUTHORITY, true, NOW);
    assert_eq!(r.unwrap_err(), ErrorCode::CollateralHardCapHit);
}

#[test]
fn test_print_zero_supply_fails_with_overflow_not_cap() {
    let acc = print_accounts(900, 1_000, pool(6, 0, 1_000_000));
    let r = print_cash(&acc, 50, ISSUE_AUTHORITY, true, NOW);
    assert_eq!(r.unwrap_err(), ErrorCode::IntegerOverflow);
}

#[test]
fn test_print_balance_overflow_fails() {
    let acc = print_accounts(u64::MAX, u64::MAX, pool(6, 2_000_000, 1_000_000));
    let r = print_cash(&acc, 1, ISSUE_AUTHORITY, true, NOW);
    assert_eq!(r.unwrap_err(), ErrorCode::IntegerOverflow);
}

#[test]
fn test_print_zero_conversion_is_noop() {
    // 9-decimal LP at par: 500 shares are worth less than one stablecoin
    // unit, so the print succeeds and does nothing.
    let acc = print_accounts(0, 1_000_000_000, pool(9, 2_000_000_000, 1_000_000_000));
    let r = print_cash(&acc, 500, ISSUE_AUTHORITY, true, NOW);
    assert_eq!(r, Ok(None));
}

#[test]
fn test_print_disabled_by_policy() {
    let acc = print_accounts(900, 1_000, pool(6, 2_000_000, 1_000_000));
    let r = print_cash(&acc, 50, ISSUE_AUTHORITY, false, NOW);
    assert_eq!(r.unwrap_err(), ErrorCode::OperationsDisabled);
}

#[test]
fn test_print_rejects_bad_references() {
    let mut wrong_owner = print_accounts(900, 1_000, pool(6, 2_000_000, 1_000_000));
    wrong_owner.depositor_source_owner = 99;
    assert_eq!(
        print_cash(&wrong_owner, 50, ISSUE_AUTHORITY, true, NOW).unwrap_err(),
        ErrorCode::KeyMismatch
    );
    let mut wrong_bank = print_accounts(900, 1_000, pool(6, 2_000_000, 1_000_000));
    wrong_bank.common.collateral.bank = 99;
    assert_eq!(
        print_cash(&wrong_bank, 50, ISSUE_AUTHORITY, true, NOW).unwrap_err(),
        ErrorCode::KeyMismatch
    );
    let mut wrong_pool = print_accounts(900, 1_000, pool(6, 2_000_000, 1_000_000));
    wrong_pool.common.saber_swap.swap_pool_mint = 99;
    assert_eq!(
        print_cash(&wrong_pool, 50, ISSUE_AUTHORITY, true, NOW).unwrap_err(),
        ErrorCode::KeyMismatch
    );
    let wrong_authority = print_accounts(900, 1_000, pool(6, 2_000_000, 1_000_000));
    assert_eq!(
        print_cash(&wrong_authority, 50, WITHDRAW_AUTHORITY, true, NOW).unwrap_err(),
        ErrorCode::KeyMismatch
    );
}

#[test]
fn test_print_sequence_never_exceeds_cap() {
    // A sequence of prints against one collateral: the vault balance never
    // exceeds the hard cap observed at each validation step.
    let cap: u64 = 1_000;
    let mut balance: u64 = 0;
    for deposit in [400, 400, 400, 150, 50, 1] {
        let acc = print_accounts(balance, cap, pool(6, 2_000_000, 1_000_000));
        match print_cash(&acc, deposit, ISSUE_AUTHORITY, true, NOW) {
            Ok(Some(action)) => {
                balance += action.transfer.amount;
            }
            Ok(None) => {}
            Err(e) => assert_eq!(e, ErrorCode::CollateralHardCapHit),
        }
        assert!(balance <= cap);
    }
    assert_eq!(balance, 1_000);
}

#[test]
fn test_burn_succeeds_at_par() {
    let acc = burn_accounts(1_000, pool(6, 2_000_000, 1_000_000));
    let action = burn_cash(&acc, 500, WITHDRAW_AUTHORITY, true, NOW)
        .unwrap()
        .unwrap();
    assert_eq!(action.burn.mint, CRATE_MINT);
    assert_eq!(action.burn.from, BURNED_SOURCE);
    assert_eq!(action.burn.authority, BURNER);
    assert_eq!(action.burn.amount, 500);
    assert_eq!(action.withdraw.crate_token, CRATE_TOKEN);
    assert_eq!(action.withdraw.crate_underlying, CRATE_VAULT);
    assert_eq!(action.withdraw.withdraw_authority, WITHDRAW_AUTHORITY);
    assert_eq!(action.withdraw.withdraw_destination, WITHDRAW_DESTINATION);
    assert_eq!(action.withdraw.author_fee_destination, AUTHOR_FEES);
    assert_eq!(action.withdraw.protocol_fee_destination, PROTOCOL_FEES);
    assert_eq!(action.withdraw.amount, 500);
    assert_eq!(
        action.event,
        BurnCashEvent {
            burner: BURNER,
            collateral_mint: COLLATERAL_MINT,
            burn_amount: 500,
            withdraw_amount: 500,
            timestamp: NOW,
        }
    );
}

#[test]
fn test_burn_amount_follows_virtual_price() {
    // Virtual price 2: each stablecoin unit redeems half an LP share.
    let acc = burn_accounts(1_000, pool(6, 1_000_000, 1_000_000));
    let action = burn_cash(&acc, 500, WITHDRAW_AUTHORITY, true, NOW)
        .unwrap()
        .unwrap();
    assert_eq!(action.withdraw.amount, 250);
    assert_eq!(action.burn.amount, 500);
}

#[test]
fn test_burn_zero_withdrawal_is_noop() {
    // The pool is so expensive that one stablecoin unit redeems no whole
    // share: the burn succeeds and does nothing.
    let acc = burn_accounts(1_000, pool(6, 1_000, 1_000_000));
    let r = burn_cash(&acc, 1, WITHDRAW_AUTHORITY, true, NOW);
    assert_eq!(r, Ok(None));
}

#[test]
fn test_burn_insufficient_funds() {
    let acc = burn_accounts(100, pool(6, 2_000_000, 1_000_000));
    let r = burn_cash(&acc, 500, WITHDRAW_AUTHORITY, true, NOW);
    assert_eq!(r.unwrap_err(), ErrorCode::InsufficientFunds);
}

#[test]
fn test_burn_zero_supply_withdraws_nothing() {
    // With no LP supply the burn converts to zero shares: a successful
    // no-op, unlike a print, whose conversion divides by the supply.
    let acc = burn_accounts(1_000, pool(6, 0, 1_000_000));
    let r = burn_cash(&acc, 500, WITHDRAW_AUTHORITY, true, NOW);
    assert_eq!(r, Ok(None));
}

#[test]
fn test_burn_disabled_by_policy() {
    let acc = burn_accounts(1_000, pool(6, 2_000_000, 1_000_000));
    let r = burn_cash(&acc, 500, WITHDRAW_AUTHORITY, false, NOW);
    assert_eq!(r.unwrap_err(), ErrorCode::OperationsDisabled);
}

#[test]
fn test_burn_rejects_bad_references() {
    let mut wrong_source_mint = burn_accounts(1_000, pool(6, 2_000_000, 1_000_000));
    wrong_source_mint.burned_cash_source_mint = 99;
    assert_eq!(
        burn_cash(&wrong_source_mint, 500, WITHDRAW_AUTHORITY, true, NOW).unwrap_err(),
        ErrorCode::KeyMismatch
    );
    let wrong_authority = burn_accounts(1_000, pool(6, 2_000_000, 1_000_000));
    assert_eq!(
        burn_cash(&wrong_authority, 500, ISSUE_AUTHORITY, true, NOW).unwrap_err(),
        ErrorCode::KeyMismatch
    );
}

#[test]
fn test_print_then_burn_returns_no_more_than_deposited() {
    // Print against a pool, then burn everything printed: the withdrawal
    // never exceeds the deposit.
    for (decimals, supply, reserve) in [
        (6, 2_000_000, 1_000_000),
        (6, 1_000_000, 1_000_000),
        (9, 2_000_000_000, 1_000_000_000),
        (6, 3_000_000, 1_000_000),
    ] {
        let deposit: u64 = 123_456;
        let p = print_accounts(0, u64::MAX, pool(decimals, supply, reserve));
        let printed = match print_cash(&p, deposit, ISSUE_AUTHORITY, true, NOW).unwrap() {
            Some(action) => action.issue.amount,
            None => continue,
        };
        let b = burn_accounts(deposit, pool(decimals, supply, reserve));
        if let Some(action) = burn_cash(&b, printed, WITHDRAW_AUTHORITY, true, NOW).unwrap() {
            assert!(action.withdraw.amount <= deposit);
        }
    }
}
