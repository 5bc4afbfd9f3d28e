//! A plain-value snapshot of a Saber stable-swap pool, and the two pricing
//! calls into the external stable-swap math.
//!
//! The pool's invariant `D` (the value of the whole pool in reserve units,
//! weighted by the amplification schedule) is computed by the outside crate
//! and treated as a black box: it is named by [`pool_invariant_d`], and the
//! two trusted wrappers below relate their results to that name exactly.

use vstd::prelude::*;

verus! {

/// A read-only snapshot of a stable-swap pool, supplied fresh on every
/// operation: reserve balances, LP supply, and the amplification-factor
/// ramp schedule together with the current time.
#[derive(Clone, Copy, Debug, Default, PartialEq, Eq, Structural)]
pub struct PoolSnapshot {
    /// Total supply of LP tokens.
    pub lp_mint_supply: u64,
    /// Reserve balance of token A.
    pub token_a_reserve: u64,
    /// Reserve balance of token B.
    pub token_b_reserve: u64,
    /// Amplification factor at the start of the ramp.
    pub initial_amp_factor: u64,
    /// Amplification factor at the end of the ramp.
    pub target_amp_factor: u64,
    /// Unix timestamp at which the amplification ramp starts.
    pub start_ramp_ts: i64,
    /// Unix timestamp at which the amplification ramp stops.
    pub stop_ramp_ts: i64,
    /// Current unix timestamp.
    pub current_ts: i64,
}

/// The stable-swap invariant `D` of a pool, as the outside crate computes it:
/// a deterministic function of the amplification schedule, the current time
/// and the two reserve balances alone. `None` stands for the iterations of
/// the outside computation signalling failure.
pub uninterp spec fn pool_invariant_d(
    initial_amp_factor: u64,
    target_amp_factor: u64,
    start_ramp_ts: i64,
    stop_ramp_ts: i64,
    current_ts: i64,
    token_a_reserve: u64,
    token_b_reserve: u64,
) -> Option<nat>;

/// The invariant `D` of the pool a snapshot describes.
pub open spec fn spec_d(s: PoolSnapshot) -> Option<nat> {
    pool_invariant_d(
        s.initial_amp_factor,
        s.target_amp_factor,
        s.start_ramp_ts,
        s.stop_ramp_ts,
        s.current_ts,
        s.token_a_reserve,
        s.token_b_reserve,
    )
}

/// 2^192, the first value that does not fit the outside crate's 192-bit
/// unsigned integers.
pub open spec fn pow2_192() -> int {
    vstd::arithmetic::power2::pow2(192) as int
}

/// The value, in reserve units, of `share_amount` LP shares of a pool whose
/// invariant is `d_opt` and whose LP supply is `supply`:
/// `D * share_amount / supply`, rounded down, computed in 192-bit checked
/// arithmetic.
pub open spec fn spec_value_of_shares(d_opt: Option<nat>, supply: u64, share_amount: u64) -> Option<
    u64,
> {
    match d_opt {
        Some(d) => {
            let value = (d as int) * (share_amount as int);
            if value < pow2_192() && supply > 0 && value / (supply as int) <= u64::MAX {
                Some((value / (supply as int)) as u64)
            } else {
                None
            }
        },
        None => None,
    }
}

/// The number of LP shares worth `target_value` reserve units in a pool whose
/// invariant is `d_opt` and whose LP supply is `supply`:
/// `target_value * supply / D`, rounded down; undefined when the pool's
/// invariant is zero.
pub open spec fn spec_shares_for_value(d_opt: Option<nat>, supply: u64, target_value: u64) -> Option<
    u64,
> {
    match d_opt {
        Some(d) => {
            let value = (target_value as int) * (supply as int);
            if d >= 1 && value / (d as int) <= u64::MAX {
                Some((value / (d as int)) as u64)
            } else {
                None
            }
        },
        None => None,
    }
}

/// The value, in reserve units, of `pool_token_amount` LP shares of the pool
/// a snapshot describes.
pub open spec fn spec_virtual_price_of_pool_tokens(s: PoolSnapshot, pool_token_amount: u64) -> Option<
    u64,
> {
    spec_value_of_shares(spec_d(s), s.lp_mint_supply, pool_token_amount)
}

/// The number of LP shares worth `virtual_amount` reserve units in the pool
/// a snapshot describes.
pub open spec fn spec_pool_tokens_from_virtual_amount(s: PoolSnapshot, virtual_amount: u64) -> Option<
    u64,
> {
    spec_shares_for_value(spec_d(s), s.lp_mint_supply, virtual_amount)
}

/// Relies on `stable_swap_math::price::SaberSwap::calculate_virtual_price_of_pool_tokens`:
/// it computes `compute_d()? * amount / lp_mint_supply` in checked 192-bit
/// arithmetic, returning `None` if `compute_d` fails, if the product reaches
/// 2^192, if the supply is zero, or if the quotient does not fit a `u64`.
#[verifier::external_body]
pub(crate) fn saber_virtual_price_of_pool_tokens(s: &PoolSnapshot, pool_token_amount: u64) -> (r:
    Option<u64>)
    ensures
        r == spec_value_of_shares(
            pool_invariant_d(
                s.initial_amp_factor,
                s.target_amp_factor,
                s.start_ramp_ts,
                s.stop_ramp_ts,
                s.current_ts,
                s.token_a_reserve,
                s.token_b_reserve,
            ),
            s.lp_mint_supply,
            pool_token_amount,
        ),
{
    let swap = stable_swap_math::price::SaberSwap {
        initial_amp_factor: s.initial_amp_factor,
        target_amp_factor: s.target_amp_factor,
        current_ts: s.current_ts,
        start_ramp_ts: s.start_ramp_ts,
        stop_ramp_ts: s.stop_ramp_ts,
        lp_mint_supply: s.lp_mint_supply,
        token_a_reserve: s.token_a_reserve,
        token_b_reserve: s.token_b_reserve,
    };
    swap.calculate_virtual_price_of_pool_tokens(pool_token_amount)
}

/// Relies on `stable_swap_math::price::SaberSwap::calculate_pool_tokens_from_virtual_amount`:
/// it computes `virtual_amount * lp_mint_supply / compute_d()?` in checked
/// 192-bit arithmetic (the product of two 64-bit values cannot overflow it),
/// returning `None` if `compute_d` fails or yields zero, or if the quotient
/// does not fit a `u64`.
#[verifier::external_body]
pub(crate) fn saber_pool_tokens_from_virtual_amount(s: &PoolSnapshot, virtual_amount: u64) -> (r:
    Option<u64>)
    ensures
        r == spec_shares_for_value(
            pool_invariant_d(
                s.initial_amp_factor,
                s.target_amp_factor,
                s.start_ramp_ts,
                s.stop_ramp_ts,
                s.current_ts,
                s.token_a_reserve,
                s.token_b_reserve,
            ),
            s.lp_mint_supply,
            virtual_amount,
        ),
{
    let swap = stable_swap_math::price::SaberSwap {
        initial_amp_factor: s.initial_amp_factor,
        target_amp_factor: s.target_amp_factor,
        current_ts: s.current_ts,
        start_ramp_ts: s.start_ramp_ts,
        stop_ramp_ts: s.stop_ramp_ts,
        lp_mint_supply: s.lp_mint_supply,
        token_a_reserve: s.token_a_reserve,
        token_b_reserve: s.token_b_reserve,
    };
    swap.calculate_pool_tokens_from_virtual_amount(virtual_amount)
}

} // verus!
