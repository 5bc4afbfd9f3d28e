//! The collateral registry's authorization-gated mutations: bank creation,
//! collateral authorization, hard-cap changes, role rotation, and author-fee
//! withdrawal.
//!
//! Every mutation either fully applies and returns its domain event, or
//! fails with a specific error and leaves the registry exactly as it was.

use vstd::prelude::*;

use crate::events::{
    AddCollateralEvent,
    NewBankEvent,
    SetBankmanEvent,
    SetCollateralHardCapEvent,
    SetCuratorEvent,
};
use crate::instructions::TokenTransfer;
use crate::state::{has_key, has_mint, Bank, Collateral, CollateralEntry, CollateralRegistry};
use crate::{require_equals, CASH_DECIMALS};

verus! {

/// Errors of the registry operations.
#[derive(Clone, Copy, Debug, PartialEq, Eq, Structural)]
pub enum ErrorCode {
    /// Caller is not the bank's curator.
    UnauthorizedNotCurator,
    /// Caller is not the bank's bankman.
    UnauthorizedNotBankman,
    /// The referenced collateral record is not in the registry.
    PoolNotFoundInSnapshot,
    /// The pool has already been authorized for this bank.
    PoolAlreadyAdded,
    /// The stablecoin mint already has nonzero supply.
    NewBankSupplyMustBeZero,
    /// The stablecoin mint does not carry the fixed decimal count.
    NewBankWrongDecimals,
    /// The crate token has already been initialized.
    NewBankAlreadyInitialized,
    /// An account reference does not match the record it must equal.
    KeyMismatch,
    /// Source and destination accounts must differ.
    SourceDestinationMatch,
}

/// Provisions a new bank for a stablecoin mint that has never issued
/// anything: the mint must have zero supply, the fixed decimal count, and no
/// crate token yet. The admin becomes both curator and bankman.
pub fn new_bank(
    bank_key: u64,
    crate_token_key: u64,
    crate_mint_key: u64,
    crate_mint_supply: u64,
    crate_mint_decimals: u8,
    crate_token_initialized: bool,
    admin: u64,
    timestamp: i64,
) -> (r: Result<(CollateralRegistry, NewBankEvent), ErrorCode>)
    ensures
        r is Ok <==> (crate_mint_supply == 0 && crate_mint_decimals == CASH_DECIMALS
            && !crate_token_initialized),
        r matches Err(e) ==> e == (if crate_mint_supply != 0 {
            ErrorCode::NewBankSupplyMustBeZero
        } else if crate_mint_decimals != CASH_DECIMALS {
            ErrorCode::NewBankWrongDecimals
        } else {
            ErrorCode::NewBankAlreadyInitialized
        }),
        r matches Ok((registry, event)) ==> {
            &&& registry.bank_key == bank_key
            &&& registry.bank == (Bank {
                crate_token: crate_token_key,
                crate_mint: crate_mint_key,
                curator: admin,
                bankman: admin,
            })
            &&& registry.collaterals@.len() == 0
            &&& registry.wf()
            &&& event == (NewBankEvent { bank: bank_key, curator: admin, timestamp })
        },
{
    if crate_mint_supply != 0 {
        return Err(ErrorCode::NewBankSupplyMustBeZero);
    }
    if crate_mint_decimals != CASH_DECIMALS {
        return Err(ErrorCode::NewBankWrongDecimals);
    }
    if crate_token_initialized {
        return Err(ErrorCode::NewBankAlreadyInitialized);
    }
    let registry = CollateralRegistry {
        bank_key,
        bank: Bank {
            crate_token: crate_token_key,
            crate_mint: crate_mint_key,
            curator: admin,
            bankman: admin,
        },
        collaterals: Vec::new(),
    };
    let event = NewBankEvent { bank: bank_key, curator: admin, timestamp };
    Ok((registry, event))
}

/// Authorizes a new collateral pool for the bank. Only the curator may do
/// so, and a pool may be authorized at most once; the new record starts with
/// a hard cap of zero.
pub fn authorize_collateral(
    registry: &mut CollateralRegistry,
    collateral_key: u64,
    mint: u64,
    curator: u64,
    timestamp: i64,
) -> (r: Result<AddCollateralEvent, ErrorCode>)
    ensures
        r is Err ==> *final(registry) == *old(registry),
        curator != old(registry).bank.curator ==> r == Err::<AddCollateralEvent, ErrorCode>(
            ErrorCode::UnauthorizedNotCurator,
        ),
        curator == old(registry).bank.curator && (has_mint(old(registry).collaterals@, mint)
            || has_key(old(registry).collaterals@, collateral_key)) ==> r == Err::<
            AddCollateralEvent,
            ErrorCode,
        >(ErrorCode::PoolAlreadyAdded),
        r is Ok <==> (curator == old(registry).bank.curator && !has_mint(
            old(registry).collaterals@,
            mint,
        ) && !has_key(old(registry).collaterals@, collateral_key)),
        r matches Ok(event) ==> {
            &&& final(registry).bank_key == old(registry).bank_key
            &&& final(registry).bank == old(registry).bank
            &&& final(registry).collaterals@ == old(registry).collaterals@.push(
                CollateralEntry {
                    key: collateral_key,
                    collateral: Collateral { bank: old(registry).bank_key, mint, hard_cap: 0 },
                },
            )
            &&& event == (AddCollateralEvent {
                bank: old(registry).bank_key,
                collateral: collateral_key,
                curator,
                mint,
                timestamp,
            })
        },
        old(registry).wf() ==> final(registry).wf(),
{
    if curator != registry.bank.curator {
        return Err(ErrorCode::UnauthorizedNotCurator);
    }
    let n = registry.collaterals.len();
    let mut i: usize = 0;
    while i < n
        invariant
            i <= n == registry.collaterals@.len(),
            *registry == *old(registry),
            curator == registry.bank.curator,
            forall|k: int|
                0 <= k < i ==> (#[trigger] registry.collaterals@[k]).collateral.mint != mint
                    && registry.collaterals@[k].key != collateral_key,
        decreases n - i,
    {
        let entry = &registry.collaterals[i];
        if entry.collateral.mint == mint || entry.key == collateral_key {
            return Err(ErrorCode::PoolAlreadyAdded);
        }
        i = i + 1;
    }
    let entry = CollateralEntry {
        key: collateral_key,
        collateral: Collateral { bank: registry.bank_key, mint, hard_cap: 0 },
    };
    registry.collaterals.push(entry);
    proof {
        let s_old = old(registry).collaterals@;
        let s_new = registry.collaterals@;
        assert(s_new == s_old.push(entry));
        if old(registry).wf() {
            assert forall|a: int, b: int|
                0 <= a < b < s_new.len() implies (#[trigger] s_new[a]).key != (
            #[trigger] s_new[b]).key && s_new[a].collateral.mint != s_new[b].collateral.mint by {
                if b == s_new.len() - 1 {
                    assert(s_new[a] == s_old[a]);
                }
            }
        }
    }
    Ok(
        AddCollateralEvent {
            bank: registry.bank_key,
            collateral: collateral_key,
            curator,
            mint,
            timestamp,
        },
    )
}

/// Sets the hard cap of an authorized collateral pool. Only the curator may
/// do so; the cap may be lowered below current holdings — it is enforced at
/// print time only, never retroactively.
pub fn set_collateral_hard_cap(
    registry: &mut CollateralRegistry,
    collateral_key: u64,
    hard_cap: u64,
    curator: u64,
    timestamp: i64,
) -> (r: Result<SetCollateralHardCapEvent, ErrorCode>)
    ensures
        r is Err ==> *final(registry) == *old(registry),
        curator != old(registry).bank.curator ==> r == Err::<SetCollateralHardCapEvent, ErrorCode>(
            ErrorCode::UnauthorizedNotCurator,
        ),
        r is Ok <==> (curator == old(registry).bank.curator && has_key(
            old(registry).collaterals@,
            collateral_key,
        )),
        curator == old(registry).bank.curator ==> (r matches Err(e) ==> e
            == ErrorCode::KeyMismatch),
        r matches Ok(event) ==> {
            &&& final(registry).bank_key == old(registry).bank_key
            &&& final(registry).bank == old(registry).bank
            &&& exists|i: int|
                0 <= i < old(registry).collaterals@.len() && (#[trigger] old(
                    registry,
                ).collaterals@[i]).key == collateral_key && final(registry).collaterals@ == old(
                    registry,
                ).collaterals@.update(
                    i,
                    CollateralEntry {
                        key: collateral_key,
                        collateral: Collateral {
                            bank: old(registry).collaterals@[i].collateral.bank,
                            mint: old(registry).collaterals@[i].collateral.mint,
                            hard_cap,
                        },
                    },
                )
            &&& event == (SetCollateralHardCapEvent {
                bank: old(registry).bank_key,
                collateral: collateral_key,
                hard_cap,
                timestamp,
            })
        },
        old(registry).wf() ==> final(registry).wf(),
{
    if curator != registry.bank.curator {
        return Err(ErrorCode::UnauthorizedNotCurator);
    }
    let n = registry.collaterals.len();
    let mut i: usize = 0;
    while i < n
        invariant
            i <= n == registry.collaterals@.len(),
            *registry == *old(registry),
            curator == registry.bank.curator,
            forall|k: int|
                0 <= k < i ==> (#[trigger] registry.collaterals@[k]).key != collateral_key,
        decreases n - i,
    {
        if registry.collaterals[i].key == collateral_key {
            let previous = registry.collaterals[i];
            let updated = CollateralEntry {
                key: collateral_key,
                collateral: Collateral {
                    bank: previous.collateral.bank,
                    mint: previous.collateral.mint,
                    hard_cap,
                },
            };
            registry.collaterals[i] = updated;
            proof {
                let s_old = old(registry).collaterals@;
                let s_new = registry.collaterals@;
                assert(s_old[i as int].key == collateral_key);
                assert(has_key(s_old, collateral_key));
                assert(s_new == s_old.update(i as int, updated));
                if old(registry).wf() {
                    assert forall|a: int, b: int|
                        0 <= a < b < s_new.len() implies (#[trigger] s_new[a]).key != (
                    #[trigger] s_new[b]).key && s_new[a].collateral.mint
                        != s_new[b].collateral.mint by {
                        assert(s_new[a].key == s_old[a].key && s_new[a].collateral.mint
                            == s_old[a].collateral.mint);
                        assert(s_new[b].key == s_old[b].key && s_new[b].collateral.mint
                            == s_old[b].collateral.mint);
                    }
                    assert forall|a: int|
                        0 <= a < s_new.len() implies (#[trigger] s_new[a]).collateral.bank
                        == registry.bank_key by {}
                }
            }
            return Ok(
                SetCollateralHardCapEvent {
                    bank: registry.bank_key,
                    collateral: collateral_key,
                    hard_cap,
                    timestamp,
                },
            );
        }
        i = i + 1;
    }
    Err(ErrorCode::KeyMismatch)
}

/// Rotates the bank's curator. Only the bankman may do so.
pub fn set_curator(
    registry: &mut CollateralRegistry,
    next_curator: u64,
    bankman: u64,
    timestamp: i64,
) -> (r: Result<SetCuratorEvent, ErrorCode>)
    ensures
        r is Ok <==> bankman == old(registry).bank.bankman,
        r is Err ==> r == Err::<SetCuratorEvent, ErrorCode>(ErrorCode::UnauthorizedNotBankman)
            && *final(registry) == *old(registry),
        r matches Ok(event) ==> {
            &&& final(registry).bank_key == old(registry).bank_key
            &&& final(registry).collaterals@ == old(registry).collaterals@
            &&& final(registry).bank == (Bank {
                crate_token: old(registry).bank.crate_token,
                crate_mint: old(registry).bank.crate_mint,
                curator: next_curator,
                bankman: old(registry).bank.bankman,
            })
            &&& event == (SetCuratorEvent {
                bank: old(registry).bank_key,
                curator: next_curator,
                previous_curator: old(registry).bank.curator,
                bankman,
                timestamp,
            })
        },
        old(registry).wf() ==> final(registry).wf(),
{
    if bankman != registry.bank.bankman {
        return Err(ErrorCode::UnauthorizedNotBankman);
    }
    let previous_curator = registry.bank.curator;
    registry.bank.curator = next_curator;
    Ok(
        SetCuratorEvent {
            bank: registry.bank_key,
            curator: next_curator,
            previous_curator,
            bankman,
            timestamp,
        },
    )
}

/// Rotates the bank's bankman. Only the current bankman may do so.
pub fn set_bankman(
    registry: &mut CollateralRegistry,
    next_bankman: u64,
    bankman: u64,
    timestamp: i64,
) -> (r: Result<SetBankmanEvent, ErrorCode>)
    ensures
        r is Ok <==> bankman == old(registry).bank.bankman,
        r is Err ==> r == Err::<SetBankmanEvent, ErrorCode>(ErrorCode::UnauthorizedNotBankman)
            && *final(registry) == *old(registry),
        r matches Ok(event) ==> {
            &&& final(registry).bank_key == old(registry).bank_key
            &&& final(registry).collaterals@ == old(registry).collaterals@
            &&& final(registry).bank == (Bank {
                crate_token: old(registry).bank.crate_token,
                crate_mint: old(registry).bank.crate_mint,
                curator: old(registry).bank.curator,
                bankman: next_bankman,
            })
            &&& event == (SetBankmanEvent {
                bank: old(registry).bank_key,
                bankman: next_bankman,
                previous_bankman: old(registry).bank.bankman,
                timestamp,
            })
        },
        old(registry).wf() ==> final(registry).wf(),
{
    if bankman != registry.bank.bankman {
        return Err(ErrorCode::UnauthorizedNotBankman);
    }
    let previous_bankman = registry.bank.bankman;
    registry.bank.bankman = next_bankman;
    Ok(
        SetBankmanEvent {
            bank: registry.bank_key,
            bankman: next_bankman,
            previous_bankman,
            timestamp,
        },
    )
}

/// The accounts of an author-fee withdrawal, as plain values: the bank, the
/// collateral whose fees are withdrawn, the fee-holding token account, and
/// the destination.
#[derive(Clone, Copy, Debug, PartialEq, Eq, Structural)]
pub struct WithdrawAuthorFee {
    /// Identifier of the bank record.
    pub bank_key: u64,
    /// The bank.
    pub bank: Bank,
    /// The caller, claiming to be the bank's bankman.
    pub bankman: u64,
    /// The collateral record whose fees are withdrawn.
    pub collateral: Collateral,
    /// Identifier of the fee-holding token account.
    pub author_fees_key: u64,
    /// Owner of the fee-holding token account.
    pub author_fees_owner: u64,
    /// Mint of the fee-holding token account.
    pub author_fees_mint: u64,
    /// Identifier of the destination token account.
    pub destination_key: u64,
}

/// The checks an author-fee withdrawal must pass, in the order they are
/// made; `Ok` when all hold.
pub open spec fn spec_withdraw_author_fee_check(acc: WithdrawAuthorFee) -> Result<(), ErrorCode> {
    if acc.bank.bankman != acc.bankman {
        Err(ErrorCode::UnauthorizedNotBankman)
    } else if acc.collateral.bank != acc.bank_key {
        Err(ErrorCode::KeyMismatch)
    } else if acc.author_fees_key == acc.destination_key {
        Err(ErrorCode::SourceDestinationMatch)
    } else if acc.author_fees_owner != acc.bank_key {
        Err(ErrorCode::KeyMismatch)
    } else if acc.author_fees_mint != acc.collateral.mint {
        Err(ErrorCode::KeyMismatch)
    } else {
        Ok(())
    }
}

impl WithdrawAuthorFee {
    /// Checks the caller's role and the account cross-references.
    pub fn validate(&self) -> (r: Result<(), ErrorCode>)
        ensures
            r == spec_withdraw_author_fee_check(*self),
    {
        require_equals(self.bank.bankman, self.bankman, ErrorCode::UnauthorizedNotBankman)?;
        require_equals(self.collateral.bank, self.bank_key, ErrorCode::KeyMismatch)?;
        if self.author_fees_key == self.destination_key {
            return Err(ErrorCode::SourceDestinationMatch);
        }
        require_equals(self.author_fees_owner, self.bank_key, ErrorCode::KeyMismatch)?;
        require_equals(self.author_fees_mint, self.collateral.mint, ErrorCode::KeyMismatch)?;
        Ok(())
    }
}

/// Builds the transfer that moves `amount` from the fee-holding account to
/// the destination, authorized by the bank.
pub fn handler(acc: &WithdrawAuthorFee, amount: u64) -> (r: TokenTransfer)
    ensures
        r == (TokenTransfer {
            from: acc.author_fees_key,
            to: acc.destination_key,
            authority: acc.bank_key,
            amount,
        }),
{
    TokenTransfer {
        from: acc.author_fees_key,
        to: acc.destination_key,
        authority: acc.bank_key,
        amount,
    }
}

/// Withdraws the author fee to the given destination: validates the caller
/// and the accounts, then returns the transfer to perform. No conversion is
/// involved; the token primitive itself rejects an amount above the held
/// balance.
pub fn withdraw_author_fee(acc: &WithdrawAuthorFee, amount: u64) -> (r: Result<
    TokenTransfer,
    ErrorCode,
>)
    ensures
        r is Ok <==> spec_withdraw_author_fee_check(*acc) is Ok,
        r matches Err(e) ==> spec_withdraw_author_fee_check(*acc) == Err::<(), ErrorCode>(e),
        r matches Ok(t) ==> t == (TokenTransfer {
            from: acc.author_fees_key,
            to: acc.destination_key,
            authority: acc.bank_key,
            amount,
        }),
{
    match acc.validate() {
        Ok(_) => Ok(handler(acc, amount)),
        Err(e) => Err(e),
    }
}

} // verus!
