//! Persistent records of the collateral registry: the issuer ("Bank"), the
//! authorized collateral pools, and the registry that owns them.

use vstd::prelude::*;

verus! {

/// The issuer record, one per stablecoin deployment.
///
/// Lets users print stablecoin against authorized collateral or redeem
/// stablecoin for its underlying.
#[derive(Clone, Copy, Debug, Default, PartialEq, Eq, Structural)]
pub struct Bank {
    /// The crate token holding the issued stablecoin supply metadata.
    pub crate_token: u64,
    /// Mint of the stablecoin.
    pub crate_mint: u64,
    /// Identity that can choose what collateral is allowed.
    pub curator: u64,
    /// Identity that can change who the curator is, and itself.
    pub bankman: u64,
}

/// A collateral pool which has been authorized to back the stablecoin.
#[derive(Clone, Copy, Debug, Default, PartialEq, Eq, Structural)]
pub struct Collateral {
    /// The owning [`Bank`], as an identifier.
    pub bank: u64,
    /// Mint of the collateral's LP shares.
    pub mint: u64,
    /// Hard cap on the quantity of collateral tokens this entry may hold.
    pub hard_cap: u64,
}

/// A [`Collateral`] record together with the identifier under which the host
/// stores it, carried in events.
#[derive(Clone, Copy, Debug, Default, PartialEq, Eq, Structural)]
pub struct CollateralEntry {
    /// Identifier of the collateral record.
    pub key: u64,
    /// The record itself.
    pub collateral: Collateral,
}

/// One issuer and the set of collateral pools authorized for it.
#[derive(Clone, Debug, PartialEq, Eq)]
pub struct CollateralRegistry {
    /// Identifier of the bank record.
    pub bank_key: u64,
    /// The issuer record.
    pub bank: Bank,
    /// The authorized collateral pools, in order of authorization.
    pub collaterals: Vec<CollateralEntry>,
}

/// Whether some entry carries the given collateral-record identifier.
pub open spec fn has_key(entries: Seq<CollateralEntry>, key: u64) -> bool {
    exists|i: int| 0 <= i < entries.len() && entries[i].key == key
}

/// Whether some entry's collateral pool has the given mint.
pub open spec fn has_mint(entries: Seq<CollateralEntry>, mint: u64) -> bool {
    exists|i: int| 0 <= i < entries.len() && entries[i].collateral.mint == mint
}

impl CollateralRegistry {
    /// Well-formedness: every entry points back to this bank, and a pool is
    /// authorized at most once — record identifiers and mints are unique.
    pub open spec fn wf(self) -> bool {
        &&& forall|i: int|
            0 <= i < self.collaterals@.len() ==> (#[trigger] self.collaterals@[i]).collateral.bank
                == self.bank_key
        &&& forall|i: int, j: int|
            0 <= i < j < self.collaterals@.len() ==> (#[trigger] self.collaterals@[i]).key != (
            #[trigger] self.collaterals@[j]).key
        &&& forall|i: int, j: int|
            0 <= i < j < self.collaterals@.len() ==> (#[trigger] self.collaterals@[i]).collateral.mint
                != (#[trigger] self.collaterals@[j]).collateral.mint
    }
}

} // verus!
