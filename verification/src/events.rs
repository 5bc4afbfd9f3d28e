//! Domain events. Every successful mutation returns the event describing it
//! as a value; the caller decides how to publish it.

use vstd::prelude::*;

verus! {

/// Emitted when a bank is created.
#[derive(Clone, Copy, Debug, PartialEq, Eq, Structural)]
pub struct NewBankEvent {
    /// The bank.
    pub bank: u64,
    /// Curator of the new bank.
    pub curator: u64,
    /// Timestamp of the event.
    pub timestamp: i64,
}

/// Emitted when a collateral pool is authorized.
#[derive(Clone, Copy, Debug, PartialEq, Eq, Structural)]
pub struct AddCollateralEvent {
    /// The bank.
    pub bank: u64,
    /// The new collateral record.
    pub collateral: u64,
    /// The bank's curator.
    pub curator: u64,
    /// Mint of the collateral.
    pub mint: u64,
    /// Timestamp of the event.
    pub timestamp: i64,
}

/// Emitted when a bank's curator is rotated.
#[derive(Clone, Copy, Debug, PartialEq, Eq, Structural)]
pub struct SetCuratorEvent {
    /// The bank.
    pub bank: u64,
    /// The new curator.
    pub curator: u64,
    /// The previous curator.
    pub previous_curator: u64,
    /// The bank's bankman.
    pub bankman: u64,
    /// Timestamp of the event.
    pub timestamp: i64,
}

/// Emitted when a bank's bankman is rotated.
#[derive(Clone, Copy, Debug, PartialEq, Eq, Structural)]
pub struct SetBankmanEvent {
    /// The bank.
    pub bank: u64,
    /// The new bankman.
    pub bankman: u64,
    /// The previous bankman.
    pub previous_bankman: u64,
    /// Timestamp of the event.
    pub timestamp: i64,
}

/// Emitted when a collateral pool's hard cap is changed.
#[derive(Clone, Copy, Debug, PartialEq, Eq, Structural)]
pub struct SetCollateralHardCapEvent {
    /// The bank.
    pub bank: u64,
    /// The collateral record.
    pub collateral: u64,
    /// The new hard cap.
    pub hard_cap: u64,
    /// Timestamp of the event.
    pub timestamp: i64,
}

/// Emitted when stablecoin is printed.
#[derive(Clone, Copy, Debug, PartialEq, Eq, Structural)]
pub struct PrintCashEvent {
    /// The identity which deposited collateral.
    pub depositor: u64,
    /// Mint of the collateral used to print.
    pub collateral_mint: u64,
    /// Amount of stablecoin printed.
    pub print_amount: u64,
    /// Amount of collateral tokens deposited.
    pub deposit_amount: u64,
    /// Timestamp of the event.
    pub timestamp: i64,
}

/// Emitted when stablecoin is burned.
#[derive(Clone, Copy, Debug, PartialEq, Eq, Structural)]
pub struct BurnCashEvent {
    /// The identity which burned stablecoin.
    pub burner: u64,
    /// Mint of the collateral withdrawn.
    pub collateral_mint: u64,
    /// Amount of stablecoin burned.
    pub burn_amount: u64,
    /// Amount of collateral tokens withdrawn.
    pub withdraw_amount: u64,
    /// Timestamp of the event.
    pub timestamp: i64,
}

} // verus!
