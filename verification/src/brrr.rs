//! Print and burn orchestration.
//!
//! Printing deposits LP shares and mints stablecoin worth their virtual
//! price; burning destroys stablecoin and withdraws the LP shares it is
//! worth. Each operation validates every account cross-reference, computes
//! the conversion, and returns the token instructions and the domain event
//! as one value — the host performs them atomically, all or none. A
//! conversion that truncates to zero is a successful no-op: nothing moves
//! and no event is emitted.

use vstd::prelude::*;

use crate::converter::{spec_cash_for_pool_tokens, spec_pool_tokens_for_cash, CashSwap};
use crate::events::{BurnCashEvent, PrintCashEvent};
use crate::instructions::{CrateIssue, CrateWithdraw, TokenBurn, TokenTransfer};
use crate::saber::PoolSnapshot;
use crate::state::{Bank, Collateral};
use crate::require_equals;

verus! {

/// Errors of the print and burn operations.
#[derive(Clone, Copy, Debug, PartialEq, Eq, Structural)]
pub enum ErrorCode {
    /// Too many of this LP token are being used as collateral.
    CollateralHardCapHit,
    /// Insufficient pool funds.
    InsufficientFunds,
    /// An account reference does not match the record it must equal.
    KeyMismatch,
    /// A checked computation overflowed or was undefined.
    IntegerOverflow,
    /// Printing and burning are switched off by policy.
    OperationsDisabled,
}

/// The accounts describing the Saber pool backing a collateral, as plain
/// values: the arrow staking the LP tokens, the swap's own records, the pool
/// mint and the two reserve accounts.
#[derive(Clone, Copy, Debug, Default, PartialEq, Eq, Structural)]
pub struct SaberSwapAccounts {
    /// Mint the arrow stakes.
    pub arrow_mint: u64,
    /// Mint of the arrow's vendor miner.
    pub arrow_vendor_miner_mint: u64,
    /// Pool mint recorded in the swap.
    pub swap_pool_mint: u64,
    /// Reserve account of token A recorded in the swap.
    pub swap_token_a_reserves: u64,
    /// Reserve account of token B recorded in the swap.
    pub swap_token_b_reserves: u64,
    /// Identifier of the pool-mint account supplied.
    pub pool_mint_key: u64,
    /// Decimals of the pool mint.
    pub pool_mint_decimals: u8,
    /// Supply of the pool mint.
    pub pool_mint_supply: u64,
    /// Identifier of the token A reserve account supplied.
    pub reserve_a_key: u64,
    /// Balance of the token A reserve account.
    pub reserve_a_amount: u64,
    /// Identifier of the token B reserve account supplied.
    pub reserve_b_key: u64,
    /// Balance of the token B reserve account.
    pub reserve_b_amount: u64,
    /// Amplification factor at the start of the ramp.
    pub initial_amp_factor: u64,
    /// Amplification factor at the end of the ramp.
    pub target_amp_factor: u64,
    /// Unix timestamp at which the amplification ramp starts.
    pub start_ramp_ts: i64,
    /// Unix timestamp at which the amplification ramp stops.
    pub stop_ramp_ts: i64,
}

/// The supplied pool accounts belong together: the arrow's vendor miner and
/// the swap both reference the supplied pool mint, and the swap references
/// the supplied reserve accounts.
pub open spec fn spec_saber_swap_accounts_valid(s: SaberSwapAccounts) -> bool {
    &&& s.arrow_vendor_miner_mint == s.pool_mint_key
    &&& s.swap_pool_mint == s.pool_mint_key
    &&& s.swap_token_a_reserves == s.reserve_a_key
    &&& s.swap_token_b_reserves == s.reserve_b_key
}

/// The conversion input read out of the pool accounts at the given time.
pub open spec fn spec_cash_swap(s: SaberSwapAccounts, current_ts: i64) -> CashSwap {
    CashSwap {
        lp_mint_decimals: s.pool_mint_decimals,
        saber: PoolSnapshot {
            lp_mint_supply: s.pool_mint_supply,
            token_a_reserve: s.reserve_a_amount,
            token_b_reserve: s.reserve_b_amount,
            initial_amp_factor: s.initial_amp_factor,
            target_amp_factor: s.target_amp_factor,
            start_ramp_ts: s.start_ramp_ts,
            stop_ramp_ts: s.stop_ramp_ts,
            current_ts,
        },
    }
}

impl SaberSwapAccounts {
    /// Checks that the supplied pool accounts belong together.
    pub fn validate(&self) -> (r: Result<(), ErrorCode>)
        ensures
            r is Ok <==> spec_saber_swap_accounts_valid(*self),
            r matches Err(e) ==> e == ErrorCode::KeyMismatch,
    {
        require_equals(self.arrow_vendor_miner_mint, self.pool_mint_key, ErrorCode::KeyMismatch)?;
        require_equals(self.swap_pool_mint, self.pool_mint_key, ErrorCode::KeyMismatch)?;
        require_equals(self.swap_token_a_reserves, self.reserve_a_key, ErrorCode::KeyMismatch)?;
        require_equals(self.swap_token_b_reserves, self.reserve_b_key, ErrorCode::KeyMismatch)?;
        Ok(())
    }

    /// Reads the conversion input out of the pool accounts at the given
    /// time.
    pub fn cash_swap(&self, current_ts: i64) -> (r: CashSwap)
        ensures
            r == spec_cash_swap(*self, current_ts),
    {
        CashSwap {
            lp_mint_decimals: self.pool_mint_decimals,
            saber: PoolSnapshot {
                lp_mint_supply: self.pool_mint_supply,
                token_a_reserve: self.reserve_a_amount,
                token_b_reserve: self.reserve_b_amount,
                initial_amp_factor: self.initial_amp_factor,
                target_amp_factor: self.target_amp_factor,
                start_ramp_ts: self.start_ramp_ts,
                stop_ramp_ts: self.stop_ramp_ts,
                current_ts,
            },
        }
    }
}

/// The accounts shared by printing and burning, as plain values.
#[derive(Clone, Copy, Debug, Default, PartialEq, Eq, Structural)]
pub struct BrrrCommon {
    /// Identifier of the bank record.
    pub bank_key: u64,
    /// The bank.
    pub bank: Bank,
    /// The collateral record.
    pub collateral: Collateral,
    /// Identifier of the crate token.
    pub crate_token_key: u64,
    /// Mint recorded in the crate token.
    pub crate_token_mint: u64,
    /// Identifier of the stablecoin mint account supplied.
    pub crate_mint_key: u64,
    /// Identifier of the token account holding the crate's collateral.
    pub crate_collateral_tokens_key: u64,
    /// Owner of that token account.
    pub crate_collateral_tokens_owner: u64,
    /// Mint of that token account.
    pub crate_collateral_tokens_mint: u64,
    /// Balance of that token account.
    pub crate_collateral_tokens_amount: u64,
    /// The pool accounts.
    pub saber_swap: SaberSwapAccounts,
}

/// Cross-references of the shared accounts: the collateral belongs to the
/// bank, the supplied mint is the bank's stablecoin mint and the crate's,
/// the collateral-holding account is the crate's and holds the collateral's
/// mint, and the pool accounts match the collateral.
pub open spec fn spec_brrr_common_valid(c: BrrrCommon) -> bool {
    &&& c.bank_key == c.collateral.bank
    &&& c.bank.crate_mint == c.crate_mint_key
    &&& c.crate_token_key == c.crate_collateral_tokens_owner
    &&& c.crate_mint_key == c.crate_token_mint
    &&& c.crate_collateral_tokens_mint == c.collateral.mint
    &&& spec_saber_swap_accounts_valid(c.saber_swap)
    &&& c.collateral.mint == c.saber_swap.arrow_mint
}

impl BrrrCommon {
    /// Checks the cross-references of the shared accounts.
    pub fn validate(&self) -> (r: Result<(), ErrorCode>)
        ensures
            r is Ok <==> spec_brrr_common_valid(*self),
            r matches Err(e) ==> e == ErrorCode::KeyMismatch,
    {
        require_equals(self.bank_key, self.collateral.bank, ErrorCode::KeyMismatch)?;
        require_equals(self.bank.crate_mint, self.crate_mint_key, ErrorCode::KeyMismatch)?;
        require_equals(
            self.crate_token_key,
            self.crate_collateral_tokens_owner,
            ErrorCode::KeyMismatch,
        )?;
        require_equals(self.crate_mint_key, self.crate_token_mint, ErrorCode::KeyMismatch)?;
        require_equals(
            self.crate_collateral_tokens_mint,
            self.collateral.mint,
            ErrorCode::KeyMismatch,
        )?;
        self.saber_swap.validate()?;
        require_equals(self.collateral.mint, self.saber_swap.arrow_mint, ErrorCode::KeyMismatch)?;
        Ok(())
    }
}

/// Everything a successful print performs: the collateral transfer into the
/// crate, the stablecoin issuance, and the event to publish.
#[derive(Clone, Copy, Debug, PartialEq, Eq, Structural)]
pub struct PrintAction {
    /// Moves the deposited LP shares from the depositor to the crate.
    pub transfer: TokenTransfer,
    /// Issues the printed stablecoin to the destination.
    pub issue: CrateIssue,
    /// The event describing the print.
    pub event: PrintCashEvent,
}

/// The accounts of a print, as plain values.
#[derive(Clone, Copy, Debug, Default, PartialEq, Eq, Structural)]
pub struct PrintCash {
    /// The shared accounts.
    pub common: BrrrCommon,
    /// The depositor.
    pub depositor: u64,
    /// Identifier of the depositor's source token account.
    pub depositor_source_key: u64,
    /// Owner of the source token account.
    pub depositor_source_owner: u64,
    /// Mint of the source token account.
    pub depositor_source_mint: u64,
    /// Identifier of the destination for the issued stablecoin.
    pub mint_destination_key: u64,
    /// Mint of the destination account.
    pub mint_destination_mint: u64,
    /// The issue authority supplied.
    pub issue_authority: u64,
}

/// Cross-references of a print: the shared accounts hold, the depositor owns
/// the source account, the source holds the collateral's mint, the
/// destination holds the stablecoin, and the issue authority is the known
/// one.
pub open spec fn spec_print_cash_valid(p: PrintCash, issue_authority_address: u64) -> bool {
    &&& spec_brrr_common_valid(p.common)
    &&& p.depositor == p.depositor_source_owner
    &&& p.depositor_source_mint == p.common.collateral.mint
    &&& p.mint_destination_mint == p.common.crate_token_mint
    &&& p.issue_authority == issue_authority_address
}

/// What a validated print returns: the hard cap admits the deposit or the
/// operation fails; the conversion succeeds or the operation fails; a zero
/// print amount is a successful no-op; otherwise the transfer, the issuance
/// and the event, each pinned field by field.
pub open spec fn spec_print_cash_action(p: PrintCash, deposit_amount: u64, current_ts: i64) -> Result<
    Option<PrintAction>,
    ErrorCode,
> {
    if p.common.crate_collateral_tokens_amount + deposit_amount > u64::MAX {
        Err(ErrorCode::IntegerOverflow)
    } else if p.common.crate_collateral_tokens_amount + deposit_amount
        > p.common.collateral.hard_cap {
        Err(ErrorCode::CollateralHardCapHit)
    } else {
        match spec_cash_for_pool_tokens(
            spec_cash_swap(p.common.saber_swap, current_ts),
            deposit_amount,
        ) {
            None => Err(ErrorCode::IntegerOverflow),
            Some(print_amount) => if print_amount == 0 {
                Ok(None)
            } else {
                Ok(
                    Some(
                        PrintAction {
                            transfer: TokenTransfer {
                                from: p.depositor_source_key,
                                to: p.common.crate_collateral_tokens_key,
                                authority: p.depositor,
                                amount: deposit_amount,
                            },
                            issue: CrateIssue {
                                crate_token: p.common.crate_token_key,
                                crate_mint: p.common.crate_mint_key,
                                issue_authority: p.issue_authority,
                                mint_destination: p.mint_destination_key,
                                author_fee_destination: p.mint_destination_key,
                                protocol_fee_destination: p.mint_destination_key,
                                amount: print_amount,
                            },
                            event: PrintCashEvent {
                                depositor: p.depositor,
                                collateral_mint: p.common.crate_collateral_tokens_mint,
                                print_amount,
                                deposit_amount,
                                timestamp: current_ts,
                            },
                        },
                    ),
                )
            },
        }
    }
}

/// The full print operation: validation, the policy switch, then the
/// action.
pub open spec fn spec_print_cash(
    p: PrintCash,
    deposit_amount: u64,
    issue_authority_address: u64,
    operations_enabled: bool,
    current_ts: i64,
) -> Result<Option<PrintAction>, ErrorCode> {
    if !spec_print_cash_valid(p, issue_authority_address) {
        Err(ErrorCode::KeyMismatch)
    } else if !operations_enabled {
        Err(ErrorCode::OperationsDisabled)
    } else {
        spec_print_cash_action(p, deposit_amount, current_ts)
    }
}

impl PrintCash {
    /// Checks the cross-references of a print.
    pub fn validate(&self, issue_authority_address: u64) -> (r: Result<(), ErrorCode>)
        ensures
            r is Ok <==> spec_print_cash_valid(*self, issue_authority_address),
            r matches Err(e) ==> e == ErrorCode::KeyMismatch,
    {
        self.common.validate()?;
        require_equals(self.depositor, self.depositor_source_owner, ErrorCode::KeyMismatch)?;
        require_equals(
            self.depositor_source_mint,
            self.common.collateral.mint,
            ErrorCode::KeyMismatch,
        )?;
        require_equals(
            self.mint_destination_mint,
            self.common.crate_token_mint,
            ErrorCode::KeyMismatch,
        )?;
        require_equals(self.issue_authority, issue_authority_address, ErrorCode::KeyMismatch)?;
        Ok(())
    }

    /// Performs a validated print: admits the deposit against the hard cap,
    /// converts it to a stablecoin amount at the pool's virtual price, and
    /// returns the instructions and the event — or a no-op when the deposit
    /// converts to nothing.
    pub fn print_cash(&self, deposit_amount: u64, current_ts: i64) -> (r: Result<
        Option<PrintAction>,
        ErrorCode,
    >)
        ensures
            r == spec_print_cash_action(*self, deposit_amount, current_ts),
            r matches Ok(Some(action)) ==> self.common.crate_collateral_tokens_amount
                + deposit_amount <= self.common.collateral.hard_cap,
    {
        let current_balance = self.common.crate_collateral_tokens_amount;
        let new_balance = match current_balance.checked_add(deposit_amount) {
            Some(b) => b,
            None => {
                return Err(ErrorCode::IntegerOverflow);
            },
        };
        if new_balance > self.common.collateral.hard_cap {
            return Err(ErrorCode::CollateralHardCapHit);
        }
        let swap = self.common.saber_swap.cash_swap(current_ts);
        let print_amount = match swap.calculate_cash_for_pool_tokens(deposit_amount) {
            Some(amount) => amount,
            None => {
                return Err(ErrorCode::IntegerOverflow);
            },
        };
        if print_amount == 0 {
            return Ok(None);
        }
        Ok(
            Some(
                PrintAction {
                    transfer: TokenTransfer {
                        from: self.depositor_source_key,
                        to: self.common.crate_collateral_tokens_key,
                        authority: self.depositor,
                        amount: deposit_amount,
                    },
                    issue: CrateIssue {
                        crate_token: self.common.crate_token_key,
                        crate_mint: self.common.crate_mint_key,
                        issue_authority: self.issue_authority,
                        mint_destination: self.mint_destination_key,
                        author_fee_destination: self.mint_destination_key,
                        protocol_fee_destination: self.mint_destination_key,
                        amount: print_amount,
                    },
                    event: PrintCashEvent {
                        depositor: self.depositor,
                        collateral_mint: self.common.crate_collateral_tokens_mint,
                        print_amount,
                        deposit_amount,
                        timestamp: current_ts,
                    },
                },
            ),
        )
    }
}

/// Prints stablecoin against a deposit of LP shares: validates the
/// accounts, applies the policy switch, then computes and returns the
/// print action.
pub fn print_cash(
    accounts: &PrintCash,
    deposit_amount: u64,
    issue_authority_address: u64,
    operations_enabled: bool,
    current_ts: i64,
) -> (r: Result<Option<PrintAction>, ErrorCode>)
    ensures
        r == spec_print_cash(
            *accounts,
            deposit_amount,
            issue_authority_address,
            operations_enabled,
            current_ts,
        ),
{
    accounts.validate(issue_authority_address)?;
    if !operations_enabled {
        return Err(ErrorCode::OperationsDisabled);
    }
    accounts.print_cash(deposit_amount, current_ts)
}

/// Everything a successful burn performs: the stablecoin burn, the
/// collateral withdrawal, and the event to publish.
#[derive(Clone, Copy, Debug, PartialEq, Eq, Structural)]
pub struct BurnAction {
    /// Burns the redeemed stablecoin from the burner's source account.
    pub burn: TokenBurn,
    /// Withdraws the LP shares from the crate, split per its fee schedule.
    pub withdraw: CrateWithdraw,
    /// The event describing the burn.
    pub event: BurnCashEvent,
}

/// The accounts of a burn, as plain values.
#[derive(Clone, Copy, Debug, Default, PartialEq, Eq, Structural)]
pub struct BurnCash {
    /// The shared accounts.
    pub common: BrrrCommon,
    /// The burner.
    pub burner: u64,
    /// Identifier of the burner's stablecoin source account.
    pub burned_cash_source_key: u64,
    /// Owner of the source account.
    pub burned_cash_source_owner: u64,
    /// Mint of the source account.
    pub burned_cash_source_mint: u64,
    /// Identifier of the destination for the withdrawn collateral.
    pub withdraw_destination_key: u64,
    /// Mint of the destination account.
    pub withdraw_destination_mint: u64,
    /// Destination of the author fee.
    pub author_fee_destination_key: u64,
    /// Destination of the protocol fee.
    pub protocol_fee_destination_key: u64,
    /// The withdraw authority supplied.
    pub withdraw_authority: u64,
}

/// Cross-references of a burn: the shared accounts hold, the burner owns
/// the source account, the source holds stablecoin, the destination holds
/// the collateral's mint, and the withdraw authority is the known one.
pub open spec fn spec_burn_cash_valid(b: BurnCash, withdraw_authority_address: u64) -> bool {
    &&& spec_brrr_common_valid(b.common)
    &&& b.burner == b.burned_cash_source_owner
    &&& b.burned_cash_source_mint == b.common.crate_mint_key
    &&& b.withdraw_destination_mint == b.common.collateral.mint
    &&& b.withdraw_authority == withdraw_authority_address
}

/// What a validated burn returns: the conversion succeeds or the operation
/// fails; a zero withdrawal is a successful no-op; the crate must hold
/// enough collateral; otherwise the burn, the withdrawal and the event,
/// each pinned field by field.
pub open spec fn spec_burn_cash_action(b: BurnCash, burn_amount: u64, current_ts: i64) -> Result<
    Option<BurnAction>,
    ErrorCode,
> {
    match spec_pool_tokens_for_cash(spec_cash_swap(b.common.saber_swap, current_ts), burn_amount) {
        None => Err(ErrorCode::IntegerOverflow),
        Some(withdraw_pool_token_amount) => if withdraw_pool_token_amount == 0 {
            Ok(None)
        } else if b.common.crate_collateral_tokens_amount < withdraw_pool_token_amount {
            Err(ErrorCode::InsufficientFunds)
        } else {
            Ok(
                Some(
                    BurnAction {
                        burn: TokenBurn {
                            mint: b.common.crate_mint_key,
                            from: b.burned_cash_source_key,
                            authority: b.burner,
                            amount: burn_amount,
                        },
                        withdraw: CrateWithdraw {
                            crate_token: b.common.crate_token_key,
                            crate_underlying: b.common.crate_collateral_tokens_key,
                            withdraw_authority: b.withdraw_authority,
                            withdraw_destination: b.withdraw_destination_key,
                            author_fee_destination: b.author_fee_destination_key,
                            protocol_fee_destination: b.protocol_fee_destination_key,
                            amount: withdraw_pool_token_amount,
                        },
                        event: BurnCashEvent {
                            burner: b.burner,
                            collateral_mint: b.common.crate_collateral_tokens_mint,
                            burn_amount,
                            withdraw_amount: withdraw_pool_token_amount,
                            timestamp: current_ts,
                        },
                    },
                ),
            )
        },
    }
}

/// The full burn operation: validation, the policy switch, then the action.
pub open spec fn spec_burn_cash(
    b: BurnCash,
    burn_amount: u64,
    withdraw_authority_address: u64,
    operations_enabled: bool,
    current_ts: i64,
) -> Result<Option<BurnAction>, ErrorCode> {
    if !spec_burn_cash_valid(b, withdraw_authority_address) {
        Err(ErrorCode::KeyMismatch)
    } else if !operations_enabled {
        Err(ErrorCode::OperationsDisabled)
    } else {
        spec_burn_cash_action(b, burn_amount, current_ts)
    }
}

impl BurnCash {
    /// Checks the cross-references of a burn.
    pub fn validate(&self, withdraw_authority_address: u64) -> (r: Result<(), ErrorCode>)
        ensures
            r is Ok <==> spec_burn_cash_valid(*self, withdraw_authority_address),
            r matches Err(e) ==> e == ErrorCode::KeyMismatch,
    {
        self.common.validate()?;
        require_equals(self.burner, self.burned_cash_source_owner, ErrorCode::KeyMismatch)?;
        require_equals(
            self.burned_cash_source_mint,
            self.common.crate_mint_key,
            ErrorCode::KeyMismatch,
        )?;
        require_equals(
            self.withdraw_destination_mint,
            self.common.collateral.mint,
            ErrorCode::KeyMismatch,
        )?;
        require_equals(self.withdraw_authority, withdraw_authority_address, ErrorCode::KeyMismatch)?;
        Ok(())
    }

    /// Performs a validated burn: converts the stablecoin amount to LP
    /// shares at the pool's virtual price, checks the crate's holdings, and
    /// returns the instructions and the event — or a no-op when the amount
    /// converts to nothing.
    pub fn burn_cash(&self, burn_amount: u64, current_ts: i64) -> (r: Result<
        Option<BurnAction>,
        ErrorCode,
    >)
        ensures
            r == spec_burn_cash_action(*self, burn_amount, current_ts),
            r matches Ok(Some(action)) ==> action.withdraw.amount
                <= self.common.crate_collateral_tokens_amount,
    {
        let swap = self.common.saber_swap.cash_swap(current_ts);
        let withdraw_pool_token_amount = match swap.calculate_pool_tokens_for_cash(burn_amount) {
            Some(amount) => amount,
            None => {
                return Err(ErrorCode::IntegerOverflow);
            },
        };
        if withdraw_pool_token_amount == 0 {
            return Ok(None);
        }
        let current_balance = self.common.crate_collateral_tokens_amount;
        if current_balance < withdraw_pool_token_amount {
            return Err(ErrorCode::InsufficientFunds);
        }
        Ok(
            Some(
                BurnAction {
                    burn: TokenBurn {
                        mint: self.common.crate_mint_key,
                        from: self.burned_cash_source_key,
                        authority: self.burner,
                        amount: burn_amount,
                    },
                    withdraw: CrateWithdraw {
                        crate_token: self.common.crate_token_key,
                        crate_underlying: self.common.crate_collateral_tokens_key,
                        withdraw_authority: self.withdraw_authority,
                        withdraw_destination: self.withdraw_destination_key,
                        author_fee_destination: self.author_fee_destination_key,
                        protocol_fee_destination: self.protocol_fee_destination_key,
                        amount: withdraw_pool_token_amount,
                    },
                    event: BurnCashEvent {
                        burner: self.burner,
                        collateral_mint: self.common.crate_collateral_tokens_mint,
                        burn_amount,
                        withdraw_amount: withdraw_pool_token_amount,
                        timestamp: current_ts,
                    },
                },
            ),
        )
    }
}

/// Burns stablecoin for a withdrawal of LP shares: validates the accounts,
/// applies the policy switch, then computes and returns the burn action.
pub fn burn_cash(
    accounts: &BurnCash,
    burn_amount: u64,
    withdraw_authority_address: u64,
    operations_enabled: bool,
    current_ts: i64,
) -> (r: Result<Option<BurnAction>, ErrorCode>)
    ensures
        r == spec_burn_cash(
            *accounts,
            burn_amount,
            withdraw_authority_address,
            operations_enabled,
            current_ts,
        ),
{
    accounts.validate(withdraw_authority_address)?;
    if !operations_enabled {
        return Err(ErrorCode::OperationsDisabled);
    }
    accounts.burn_cash(burn_amount, current_ts)
}

/// The collateral balance after a sequence of prints against one
/// collateral, starting from `start`: each deposit is admitted, and added
/// to the balance, exactly when the balance after it would not exceed the
/// hard cap — the condition a print's validation enforces — and is refused
/// otherwise, leaving the balance unchanged.
pub open spec fn spec_balance_after_prints(start: u64, hard_cap: u64, deposits: Seq<u64>) -> u64
    decreases deposits.len(),
{
    if deposits.len() == 0 {
        start
    } else {
        let previous = spec_balance_after_prints(start, hard_cap, deposits.drop_last());
        let deposit = deposits.last();
        if previous + deposit <= hard_cap {
            (previous + deposit) as u64
        } else {
            previous
        }
    }
}

/// A print that performs anything is exactly one admitted step of
/// [`spec_balance_after_prints`]: it goes through only when the post-deposit
/// balance stays within the hard cap, and it moves exactly the deposit into
/// the collateral-holding account.
pub proof fn lemma_print_is_admitted_step(
    p: PrintCash,
    deposit_amount: u64,
    issue_authority_address: u64,
    current_ts: i64,
    action: PrintAction,
)
    requires
        spec_print_cash(p, deposit_amount, issue_authority_address, true, current_ts) == Ok::<
            Option<PrintAction>,
            ErrorCode,
        >(Some(action)),
    ensures
        p.common.crate_collateral_tokens_amount + deposit_amount <= p.common.collateral.hard_cap,
        action.transfer.amount == deposit_amount,
        action.transfer.to == p.common.crate_collateral_tokens_key,
{
}

/// Hard-cap invariant: over any sequence of print operations against one
/// collateral, the collateral-holding balance never exceeds the hard cap
/// observed at each print's validation step — a print is only admitted when
/// the post-deposit balance stays within the cap, so from any balance
/// within the cap, every reachable balance stays within it.
pub proof fn lemma_hard_cap_invariant(start: u64, hard_cap: u64, deposits: Seq<u64>)
    requires
        start <= hard_cap,
    ensures
        spec_balance_after_prints(start, hard_cap, deposits) <= hard_cap,
    decreases deposits.len(),
{
    if deposits.len() > 0 {
        lemma_hard_cap_invariant(start, hard_cap, deposits.drop_last());
    }
}

} // verus!
