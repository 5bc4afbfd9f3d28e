//! Collateral accounting for a stablecoin backed by AMM liquidity-pool shares.
//!
//! Users deposit LP shares of a Saber stable-swap pool as collateral and
//! receive stablecoin units in return ("printing"); holders may later redeem
//! ("burning") stablecoin units for a proportional share of any authorized
//! collateral pool. The crate covers:
//!
//! - [`converter`]: decimal scaling and the conversion between LP-share
//!   amounts and stablecoin amounts via the pool's virtual price;
//! - [`saber`]: a plain-value snapshot of a stable-swap pool, and the calls
//!   into the external stable-swap math that price it;
//! - [`state`] and [`bankman`]: the registry of authorized collateral pools,
//!   its two administrative roles, and the authorization-gated mutations;
//! - [`brrr`]: the print and burn orchestration, which validates account
//!   cross-references, enforces the per-pool hard cap, and returns the token
//!   instructions and the domain event of each operation as values.
//!
//! Accounts and denominations are referred to by opaque numeric identifiers;
//! key derivation, signing and the token ledger itself belong to the host.

use vstd::prelude::*;

pub mod bankman;
pub mod brrr;
pub mod converter;
pub mod events;
pub mod instructions;
pub mod saber;
pub mod state;

verus! {

/// Number of decimals of the stablecoin.
pub const CASH_DECIMALS: u8 = 6;

/// The one authorization and cross-reference primitive: `Ok` when the two
/// identifiers are equal, the given error otherwise.
pub fn require_equals<E>(actual: u64, expected: u64, error_kind: E) -> (r: Result<(), E>)
    ensures
        r is Ok <==> actual == expected,
        r matches Err(e) ==> e == error_kind,
{
    if actual == expected {
        Ok(())
    } else {
        Err(error_kind)
    }
}

} // verus!
