//! Instructions to the external token and crate-token primitives. The core
//! never moves balances itself: each operation returns the instructions it
//! wants performed, and the host executes them atomically — all or none.

use vstd::prelude::*;

verus! {

/// Debit `from`, credit `to`, authenticated by `authority`.
#[derive(Clone, Copy, Debug, PartialEq, Eq, Structural)]
pub struct TokenTransfer {
    /// Source token account.
    pub from: u64,
    /// Destination token account.
    pub to: u64,
    /// Authority over the source account.
    pub authority: u64,
    /// Amount to move.
    pub amount: u64,
}

/// Burn `amount` of `mint` from `from`, authenticated by `authority`.
#[derive(Clone, Copy, Debug, PartialEq, Eq, Structural)]
pub struct TokenBurn {
    /// Mint being burned.
    pub mint: u64,
    /// Source token account.
    pub from: u64,
    /// Authority over the source account.
    pub authority: u64,
    /// Amount to burn.
    pub amount: u64,
}

/// Issue newly minted stablecoin through the crate-token primitive.
#[derive(Clone, Copy, Debug, PartialEq, Eq, Structural)]
pub struct CrateIssue {
    /// The crate token.
    pub crate_token: u64,
    /// Mint of the stablecoin.
    pub crate_mint: u64,
    /// The issue authority.
    pub issue_authority: u64,
    /// Destination of the issued stablecoin.
    pub mint_destination: u64,
    /// Destination of the author fee (no issue fees are charged, so this
    /// repeats the mint destination).
    pub author_fee_destination: u64,
    /// Destination of the protocol fee (likewise repeats the mint
    /// destination).
    pub protocol_fee_destination: u64,
    /// Amount of stablecoin to issue.
    pub amount: u64,
}

/// Withdraw collateral through the crate-token primitive, which splits the
/// amount between the destination and the fee destinations per its own fee
/// schedule.
#[derive(Clone, Copy, Debug, PartialEq, Eq, Structural)]
pub struct CrateWithdraw {
    /// The crate token.
    pub crate_token: u64,
    /// The token account holding the crate's collateral.
    pub crate_underlying: u64,
    /// The withdraw authority.
    pub withdraw_authority: u64,
    /// Destination of the withdrawn collateral.
    pub withdraw_destination: u64,
    /// Destination of the author fee.
    pub author_fee_destination: u64,
    /// Destination of the protocol fee.
    pub protocol_fee_destination: u64,
    /// Amount of collateral to withdraw.
    pub amount: u64,
}

} // verus!
