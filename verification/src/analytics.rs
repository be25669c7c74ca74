use vstd::prelude::*;

verus! {

use crate::errors::CustomError;
use crate::math::{mul_div_u64, muldiv};
use crate::pool::SwapPool;
use crate::swap::{lemma_fee_within_gross, lemma_output_reserve_bounds, net_output};

/// The price of the asset with reserve `this_reserve` in units of the other
/// asset, scaled by 10^6, for every input.
pub open spec fn price_spec(this_reserve: u64, other_reserve: u64) -> Result<u64, CustomError> {
    if this_reserve == 0 {
        Err(CustomError::InsufficientLiquidity)
    } else if muldiv(other_reserve as int, 1000000, this_reserve as int) > u64::MAX {
        Err(CustomError::CalculationFailure)
    } else {
        Ok(muldiv(other_reserve as int, 1000000, this_reserve as int) as u64)
    }
}

/// Price of asset A in units of asset B, scaled by 10^6 and floored. Fails
/// `InsufficientLiquidity` on an empty A reserve and `CalculationFailure`
/// when the scaled price does not fit in 64 bits.
pub fn get_token_a_price(reserve_a: u64, reserve_b: u64) -> (r: Result<u64, CustomError>)
    ensures
        r == price_spec(reserve_a, reserve_b),
{
    if reserve_a == 0 {
        return Err(CustomError::InsufficientLiquidity);
    }
    match mul_div_u64(reserve_b, 1000000, reserve_a) {
        None => Err(CustomError::CalculationFailure),
        Some(price) => Ok(price),
    }
}

/// Price of asset B in units of asset A, scaled by 10^6 and floored; the
/// mirror of `get_token_a_price`.
pub fn get_token_b_price(reserve_a: u64, reserve_b: u64) -> (r: Result<u64, CustomError>)
    ensures
        r == price_spec(reserve_b, reserve_a),
{
    if reserve_b == 0 {
        return Err(CustomError::InsufficientLiquidity);
    }
    match mul_div_u64(reserve_a, 1000000, reserve_b) {
        None => Err(CustomError::CalculationFailure),
        Some(price) => Ok(price),
    }
}

/// Reports the two live reserves and the LP supply, unchanged.
pub fn get_pool_stats(reserve_a: u64, reserve_b: u64, lp_supply: u64) -> (r: (u64, u64, u64))
    ensures
        r == (reserve_a, reserve_b, lp_supply),
{
    (reserve_a, reserve_b, lp_supply)
}

/// What a swap simulation yields for every input.
pub open spec fn simulate_swap_spec(
    fee_rate: u64,
    reserve_a: u64,
    reserve_b: u64,
    amount_in: u64,
    is_a_to_b: bool,
) -> Result<u64, CustomError> {
    let input_reserve = if is_a_to_b {
        reserve_a
    } else {
        reserve_b
    };
    let output_reserve = if is_a_to_b {
        reserve_b
    } else {
        reserve_a
    };
    if input_reserve + amount_in > u64::MAX || input_reserve + amount_in == 0 {
        Err(CustomError::CalculationFailure)
    } else {
        Ok(net_output(input_reserve, output_reserve, amount_in, fee_rate) as u64)
    }
}

/// Runs the swap pricing formula without committing anything: no transfer is
/// issued and no fee counter moves. Arithmetic failures on this read-only
/// path (the input reserve overflowing 64 bits, or both the input reserve
/// and the input amount being zero) fail `CalculationFailure`.
pub fn calculate_swap_result(
    pool: &SwapPool,
    reserve_a: u64,
    reserve_b: u64,
    amount_in: u64,
    is_a_to_b: bool,
) -> (r: Result<u64, CustomError>)
    requires
        pool.wf(),
    ensures
        r == simulate_swap_spec(pool.fee_rate, reserve_a, reserve_b, amount_in, is_a_to_b),
{
    let input_reserve: u64 = if is_a_to_b {
        reserve_a
    } else {
        reserve_b
    };
    let output_reserve: u64 = if is_a_to_b {
        reserve_b
    } else {
        reserve_a
    };
    let new_input_reserve: u64 = match input_reserve.checked_add(amount_in) {
        None => {
            return Err(CustomError::CalculationFailure);
        },
        Some(v) => v,
    };
    if new_input_reserve == 0 {
        return Err(CustomError::CalculationFailure);
    }
    proof {
        vstd::arithmetic::mul::lemma_mul_upper_bound(
            input_reserve as int,
            u64::MAX as int,
            output_reserve as int,
            u64::MAX as int,
        );
        lemma_output_reserve_bounds(input_reserve, output_reserve, amount_in);
    }
    let product: u128 = (input_reserve as u128) * (output_reserve as u128);
    let new_output_128: u128 = product / (new_input_reserve as u128);
    let gross: u64 = output_reserve - (new_output_128 as u64);
    proof {
        vstd::arithmetic::mul::lemma_mul_upper_bound(
            gross as int,
            u64::MAX as int,
            pool.fee_rate as int,
            10000,
        );
        lemma_fee_within_gross(gross, pool.fee_rate);
    }
    let fee: u64 = (((gross as u128) * (pool.fee_rate as u128)) / 10000) as u64;
    Ok(gross - fee)
}

/// Trade volume is not tracked in the pool record; both totals read as zero.
pub fn get_pool_volume() -> (r: (u64, u64))
    ensures
        r == (0u64, 0u64),
{
    (0, 0)
}

/// What the user-share query yields for every input: the user's share of the
/// supply scaled by 10^6, and the share of each reserve, all floored; all
/// three are zero when the supply is zero.
pub open spec fn user_share_spec(
    reserve_a: u64,
    reserve_b: u64,
    lp_supply: u64,
    user_lp_balance: u64,
) -> Result<(u64, u64, u64), CustomError> {
    if lp_supply == 0 {
        Ok((0u64, 0u64, 0u64))
    } else {
        let share_scaled = muldiv(user_lp_balance as int, 1000000, lp_supply as int);
        let share_a = muldiv(user_lp_balance as int, reserve_a as int, lp_supply as int);
        let share_b = muldiv(user_lp_balance as int, reserve_b as int, lp_supply as int);
        if share_scaled > u64::MAX || share_a > u64::MAX || share_b > u64::MAX {
            Err(CustomError::CalculationFailure)
        } else {
            Ok((share_scaled as u64, share_a as u64, share_b as u64))
        }
    }
}

/// Reports a provider's share of the pool: the fraction of the LP supply
/// scaled by 10^6, and the slice of each reserve that balance currently
/// redeems for. All three are zero when the supply is zero; a share that
/// does not fit in 64 bits fails `CalculationFailure`.
pub fn get_user_pool_share(
    reserve_a: u64,
    reserve_b: u64,
    lp_supply: u64,
    user_lp_balance: u64,
) -> (r: Result<(u64, u64, u64), CustomError>)
    ensures
        r == user_share_spec(reserve_a, reserve_b, lp_supply, user_lp_balance),
{
    if lp_supply == 0 {
        return Ok((0, 0, 0));
    }
    let share_scaled: u64 = match mul_div_u64(user_lp_balance, 1000000, lp_supply) {
        None => {
            return Err(CustomError::CalculationFailure);
        },
        Some(v) => v,
    };
    let share_a: u64 = match mul_div_u64(user_lp_balance, reserve_a, lp_supply) {
        None => {
            return Err(CustomError::CalculationFailure);
        },
        Some(v) => v,
    };
    let share_b: u64 = match mul_div_u64(user_lp_balance, reserve_b, lp_supply) {
        None => {
            return Err(CustomError::CalculationFailure);
        },
        Some(v) => v,
    };
    Ok((share_scaled, share_a, share_b))
}

} // verus!
