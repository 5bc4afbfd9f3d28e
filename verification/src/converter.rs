//! Decimal scaling between LP-share units and stablecoin units, and the
//! conversion of amounts through a pool's virtual price.
//!
//! All arithmetic on the conversion path is checked: an overflow is reported
//! as `None`, never wrapped or clamped, and every division rounds down, so
//! residual precision is always lost in the protocol's favour.

use vstd::arithmetic::div_mod::{
    lemma_div_is_ordered,
    lemma_div_multiples_vanish,
    lemma_fundamental_div_mod,
    lemma_mod_bound,
};
use vstd::arithmetic::mul::{lemma_mul_inequality, lemma_mul_is_commutative};
use vstd::prelude::*;

use crate::saber::{
    saber_pool_tokens_from_virtual_amount,
    saber_virtual_price_of_pool_tokens,
    spec_d,
    spec_pool_tokens_from_virtual_amount,
    spec_virtual_price_of_pool_tokens,
    PoolSnapshot,
};
use crate::CASH_DECIMALS;

verus! {

/// 10^e as a mathematical integer.
pub open spec fn pow10(e: nat) -> nat
    decreases e,
{
    if e == 0 {
        1
    } else {
        10 * pow10((e - 1) as nat)
    }
}

proof fn lemma_pow10_pos(e: nat)
    ensures
        pow10(e) >= 1,
    decreases e,
{
    if e > 0 {
        lemma_pow10_pos((e - 1) as nat);
    }
}

proof fn lemma_pow10_increases(e1: nat, e2: nat)
    requires
        e1 <= e2,
    ensures
        pow10(e1) <= pow10(e2),
    decreases e2,
{
    if e1 < e2 {
        lemma_pow10_increases(e1, (e2 - 1) as nat);
        lemma_pow10_pos((e2 - 1) as nat);
    }
}

proof fn lemma_pow10_19_value()
    ensures
        pow10(19) == 10_000_000_000_000_000_000,
{
    reveal_with_fuel(pow10, 20);
}

/// 10^e where it fits a `u64`; `None` on exponent overflow.
pub fn pow10_checked(e: u32) -> (r: Option<u64>)
    ensures
        r == (if pow10(e as nat) <= u64::MAX {
            Some(pow10(e as nat) as u64)
        } else {
            None::<u64>
        }),
{
    if e > 19 {
        proof {
            lemma_pow10_19_value();
            lemma_pow10_increases(20, e as nat);
            reveal_with_fuel(pow10, 21);
        }
        return None;
    }
    let mut i: u32 = 0;
    let mut acc: u64 = 1;
    while i < e
        invariant
            i <= e <= 19,
            acc == pow10(i as nat),
        decreases e - i,
    {
        proof {
            lemma_pow10_increases(i as nat + 1, 19);
            lemma_pow10_19_value();
        }
        acc = acc * 10;
        i = i + 1;
    }
    proof {
        lemma_pow10_19_value();
        lemma_pow10_increases(e as nat, 19);
    }
    Some(acc)
}

/// `amount`, expressed in `from_decimals`-decimal units, converted to
/// `to_decimals`-decimal units: scaling up multiplies by a power of ten and
/// fails on overflow; scaling down divides, truncating toward zero.
pub open spec fn spec_scale(amount: u64, from_decimals: u8, to_decimals: u8) -> Option<u64> {
    if to_decimals == from_decimals {
        Some(amount)
    } else if to_decimals > from_decimals {
        let f = pow10((to_decimals - from_decimals) as nat);
        if f <= u64::MAX && amount * f <= u64::MAX {
            Some((amount * f) as u64)
        } else {
            None
        }
    } else {
        let f = pow10((from_decimals - to_decimals) as nat);
        if f <= u64::MAX {
            Some(((amount as int) / (f as int)) as u64)
        } else {
            None
        }
    }
}

/// Converts `amount` from `from_decimals`-decimal units to
/// `to_decimals`-decimal units, or reports overflow.
pub fn scale(amount: u64, from_decimals: u8, to_decimals: u8) -> (r: Option<u64>)
    ensures
        r == spec_scale(amount, from_decimals, to_decimals),
{
    if to_decimals == from_decimals {
        Some(amount)
    } else if to_decimals > from_decimals {
        match pow10_checked((to_decimals - from_decimals) as u32) {
            Some(f) => amount.checked_mul(f),
            None => None,
        }
    } else {
        match pow10_checked((from_decimals - to_decimals) as u32) {
            Some(f) => {
                proof {
                    lemma_pow10_pos((from_decimals - to_decimals) as nat);
                }
                Some(amount / f)
            },
            None => None,
        }
    }
}

/// Scaling an amount to another decimal count and back never gains value:
/// the up-scaling leg is exact and the down-scaling leg truncates, so the
/// round trip returns at most the original amount.
pub proof fn lemma_scale_round_trip(a: u64, d1: u8, d2: u8, b: u64, c: u64)
    requires
        spec_scale(a, d1, d2) == Some(b),
        spec_scale(b, d2, d1) == Some(c),
    ensures
        c <= a,
{
    if d1 == d2 {
    } else if d2 > d1 {
        let f = pow10((d2 - d1) as nat) as int;
        lemma_pow10_pos((d2 - d1) as nat);
        assert(b == a * f);
        lemma_mul_is_commutative(a as int, f);
        lemma_div_multiples_vanish(a as int, f);
        assert(c == (f * a) / f);
    } else {
        let f = pow10((d1 - d2) as nat) as int;
        lemma_pow10_pos((d1 - d2) as nat);
        assert(b == (a as int) / f);
        lemma_fundamental_div_mod(a as int, f);
        lemma_mod_bound(a as int, f);
        assert(c == b * f);
        lemma_mul_is_commutative(b as int, f);
    }
}

/// Combination of an LP mint's decimal count and a pool snapshot: everything
/// one conversion between LP shares and stablecoin units needs.
#[derive(Clone, Copy, Debug, Default, PartialEq, Eq, Structural)]
pub struct CashSwap {
    /// Decimals of the LP mint, used for stablecoin conversion.
    pub lp_mint_decimals: u8,
    /// The pool snapshot.
    pub saber: PoolSnapshot,
}

/// The stablecoin amount a deposit of `pool_token_amount` LP shares is worth:
/// the shares' virtual value, scaled from LP-mint decimals to stablecoin
/// decimals.
pub open spec fn spec_cash_for_pool_tokens(cs: CashSwap, pool_token_amount: u64) -> Option<u64> {
    match spec_virtual_price_of_pool_tokens(cs.saber, pool_token_amount) {
        Some(value) => spec_scale(value, cs.lp_mint_decimals, CASH_DECIMALS),
        None => None,
    }
}

/// The LP-share amount a redemption of `cash_amount` stablecoin units is
/// worth: the amount scaled from stablecoin decimals to LP-mint decimals,
/// then divided by the pool's virtual price.
pub open spec fn spec_pool_tokens_for_cash(cs: CashSwap, cash_amount: u64) -> Option<u64> {
    match spec_scale(cash_amount, CASH_DECIMALS, cs.lp_mint_decimals) {
        Some(virtual_amount) => spec_pool_tokens_from_virtual_amount(cs.saber, virtual_amount),
        None => None,
    }
}

impl CashSwap {
    /// Calculates the stablecoin amount the given amount of LP shares is
    /// worth, at the pool's current virtual price. `Some(0)` is a defined
    /// outcome meaning the deposit is below the smallest convertible unit.
    pub fn calculate_cash_for_pool_tokens(&self, pool_token_amount: u64) -> (r: Option<u64>)
        ensures
            r == spec_cash_for_pool_tokens(*self, pool_token_amount),
    {
        match saber_virtual_price_of_pool_tokens(&self.saber, pool_token_amount) {
            Some(value) => self.scale_lp_to_cash_decimals(value),
            None => None,
        }
    }

    /// Calculates the LP-share amount the given stablecoin amount redeems,
    /// at the pool's current virtual price. `Some(0)` is a defined outcome
    /// meaning the amount is below the smallest convertible unit.
    pub fn calculate_pool_tokens_for_cash(&self, cash_amount: u64) -> (r: Option<u64>)
        ensures
            r == spec_pool_tokens_for_cash(*self, cash_amount),
    {
        match self.scale_cash_to_lp_decimals(cash_amount) {
            Some(virtual_amount) => saber_pool_tokens_from_virtual_amount(
                &self.saber,
                virtual_amount,
            ),
            None => None,
        }
    }

    fn scale_lp_to_cash_decimals(&self, amount: u64) -> (r: Option<u64>)
        ensures
            r == spec_scale(amount, self.lp_mint_decimals, CASH_DECIMALS),
    {
        scale(amount, self.lp_mint_decimals, CASH_DECIMALS)
    }

    fn scale_cash_to_lp_decimals(&self, amount: u64) -> (r: Option<u64>)
        ensures
            r == spec_scale(amount, CASH_DECIMALS, self.lp_mint_decimals),
    {
        scale(amount, CASH_DECIMALS, self.lp_mint_decimals)
    }
}

/// Converting a deposit of LP shares to stablecoin and that stablecoin back
/// to LP shares never returns more shares than were deposited: every step
/// rounds down, so the composition of the two conversions is deflationary.
pub proof fn lemma_conversion_round_trip(cs: CashSwap, x: u64, c: u64, s: u64)
    requires
        cs.saber.lp_mint_supply > 0,
        spec_cash_for_pool_tokens(cs, x) == Some(c),
        spec_pool_tokens_for_cash(cs, c) == Some(s),
    ensures
        s <= x,
{
    let supply = cs.saber.lp_mint_supply as int;
    let d = spec_d(cs.saber)->Some_0 as int;
    let v = spec_virtual_price_of_pool_tokens(cs.saber, x)->Some_0;
    let va = spec_scale(c, CASH_DECIMALS, cs.lp_mint_decimals)->Some_0;
    assert(v == (d * x) / supply);
    assert(s == (va * supply) / d);
    lemma_scale_round_trip(v, cs.lp_mint_decimals, CASH_DECIMALS, c, va);
    lemma_mul_inequality(va as int, v as int, supply);
    lemma_div_is_ordered((va as int) * supply, (v as int) * supply, d);
    lemma_fundamental_div_mod(d * x, supply);
    lemma_mod_bound(d * x, supply);
    assert((v as int) * supply <= d * x) by {
        lemma_mul_is_commutative(v as int, supply);
    }
    lemma_div_is_ordered((v as int) * supply, d * x, d);
    lemma_mul_is_commutative(d, x as int);
    lemma_div_multiples_vanish(x as int, d);
    assert((d * x) / d == x);
}

} // verus!
