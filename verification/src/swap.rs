use vstd::prelude::*;

verus! {

use crate::errors::CustomError;
use crate::math::muldiv;
use crate::pool::SwapPool;

use vstd::arithmetic::div_mod::{
    lemma_div_is_ordered,
    lemma_div_multiples_vanish,
    lemma_div_pos_is_pos,
};
use vstd::arithmetic::mul::{
    lemma_mul_inequality,
    lemma_mul_is_commutative,
    lemma_mul_nonnegative,
    lemma_mul_upper_bound,
};

/// What one executed swap owes and retains. The host transfers `amount_in`
/// of the input asset from the trader into the input vault, then `amount_out`
/// of the output asset from the output vault to the trader; `fee` moves
/// nowhere, staying in the output vault until fees are collected.
#[derive(Clone, Copy, Debug, PartialEq, Eq, Structural)]
pub struct SwapOutcome {
    /// True when asset A is the input side.
    pub a_to_b: bool,
    /// Net output-asset amount owed to the trader.
    pub amount_out: u64,
    /// Fee retained in the output vault, accrued to that asset's counter.
    pub fee: u64,
}

/// Output reserve after a constant-product trade:
/// `floor(input_reserve * output_reserve / (input_reserve + amount_in))`.
pub open spec fn new_output_reserve(input_reserve: u64, output_reserve: u64, amount_in: u64) -> int {
    muldiv(input_reserve as int, output_reserve as int, input_reserve + amount_in)
}

/// Output-asset amount the trade frees before the fee is taken.
pub open spec fn gross_output(input_reserve: u64, output_reserve: u64, amount_in: u64) -> int {
    output_reserve - new_output_reserve(input_reserve, output_reserve, amount_in)
}

/// Fee taken on the gross output, floored basis points.
pub open spec fn fee_amount(gross: int, fee_rate: u64) -> int {
    muldiv(gross, fee_rate as int, 10000)
}

/// Net output owed to the trader.
pub open spec fn net_output(
    input_reserve: u64,
    output_reserve: u64,
    amount_in: u64,
    fee_rate: u64,
) -> int {
    gross_output(input_reserve, output_reserve, amount_in) - fee_amount(
        gross_output(input_reserve, output_reserve, amount_in),
        fee_rate,
    )
}

/// The new output reserve never exceeds the old one, so the gross output is
/// a valid 64-bit amount.
pub proof fn lemma_output_reserve_bounds(input_reserve: u64, output_reserve: u64, amount_in: u64)
    requires
        input_reserve + amount_in > 0,
        input_reserve + amount_in <= u64::MAX,
    ensures
        0 <= new_output_reserve(input_reserve, output_reserve, amount_in) <= output_reserve,
{
    let d: int = input_reserve + amount_in;
    lemma_mul_nonnegative(input_reserve as int, output_reserve as int);
    lemma_div_pos_is_pos(input_reserve * output_reserve, d);
    lemma_mul_inequality(input_reserve as int, d, output_reserve as int);
    lemma_div_is_ordered(input_reserve * output_reserve, d * output_reserve, d);
    lemma_div_multiples_vanish(output_reserve as int, d);
}

/// The fee never exceeds what it is taken from, as long as the rate is at
/// most the 10000 basis points of the whole.
pub proof fn lemma_fee_within_gross(gross: u64, fee_rate: u64)
    requires
        fee_rate <= 10000,
    ensures
        0 <= fee_amount(gross as int, fee_rate) <= gross,
{
    lemma_mul_nonnegative(gross as int, fee_rate as int);
    lemma_div_pos_is_pos(gross * fee_rate, 10000);
    lemma_mul_inequality(fee_rate as int, 10000, gross as int);
    lemma_mul_is_commutative(gross as int, fee_rate as int);
    lemma_div_is_ordered(gross * fee_rate, 10000 * gross, 10000);
    lemma_div_multiples_vanish(gross as int, 10000);
}

/// What a swap yields for every input.
pub open spec fn swap_spec(
    pool: SwapPool,
    reserve_a: u64,
    reserve_b: u64,
    source_asset: u64,
    amount_in: u64,
    min_amount_out: u64,
) -> Result<SwapOutcome, CustomError> {
    if pool.is_paused {
        Err(CustomError::PoolPaused)
    } else if amount_in == 0 {
        Err(CustomError::InvalidAmount)
    } else if source_asset != pool.token_a_mint && source_asset != pool.token_b_mint {
        Err(CustomError::InvalidToken)
    } else {
        let a_to_b = source_asset == pool.token_a_mint;
        let input_reserve = if a_to_b {
            reserve_a
        } else {
            reserve_b
        };
        let output_reserve = if a_to_b {
            reserve_b
        } else {
            reserve_a
        };
        if input_reserve + amount_in > u64::MAX {
            Err(CustomError::InvalidAmount)
        } else {
            let gross = gross_output(input_reserve, output_reserve, amount_in);
            let fee = fee_amount(gross, pool.fee_rate);
            let counter = if a_to_b {
                pool.total_fees_b
            } else {
                pool.total_fees_a
            };
            if counter + fee > u64::MAX {
                Err(CustomError::InvalidAmount)
            } else if gross - fee < min_amount_out {
                Err(CustomError::SlippageExceeded)
            } else {
                Ok(
                    SwapOutcome {
                        a_to_b,
                        amount_out: (gross - fee) as u64,
                        fee: fee as u64,
                    },
                )
            }
        }
    }
}

/// The pool record after an executed swap: the fee is accrued to the
/// counter of the output asset; nothing else changes.
pub open spec fn accrue_fee(pool: SwapPool, outcome: SwapOutcome) -> SwapPool {
    if outcome.a_to_b {
        SwapPool { total_fees_b: (pool.total_fees_b + outcome.fee) as u64, ..pool }
    } else {
        SwapPool { total_fees_a: (pool.total_fees_a + outcome.fee) as u64, ..pool }
    }
}

/// Executes a constant-product trade against live reserves.
///
/// The source asset id picks the direction; an id matching neither
/// configured asset fails `InvalidToken`. Pricing is fee-on-output: the
/// input reserve grows by `amount_in`, the output reserve is held to the
/// constant product (floored), and the freed output pays a floored
/// basis-point fee that stays in the output vault and is accrued to that
/// asset's fee counter. Fails `PoolPaused` while paused, `InvalidAmount` on
/// a zero input or 64-bit overflow of the input reserve or fee counter, and
/// `SlippageExceeded` when the net output is below `min_amount_out`; every
/// failure leaves the pool record untouched. On `Ok` the host moves
/// `amount_in` in and `amount_out` out; the fee amount is not moved.
pub fn swap(
    pool: &mut SwapPool,
    reserve_a: u64,
    reserve_b: u64,
    source_asset: u64,
    amount_in: u64,
    min_amount_out: u64,
) -> (r: Result<SwapOutcome, CustomError>)
    requires
        old(pool).wf(),
    ensures
        r == swap_spec(*old(pool), reserve_a, reserve_b, source_asset, amount_in, min_amount_out),
        r matches Ok(outcome) ==> *final(pool) == accrue_fee(*old(pool), outcome),
        r matches Err(e) ==> *final(pool) == *old(pool),
        final(pool).wf(),
{
    if pool.is_paused {
        return Err(CustomError::PoolPaused);
    }
    if amount_in == 0 {
        return Err(CustomError::InvalidAmount);
    }
    let a_to_b: bool = if source_asset == pool.token_a_mint {
        true
    } else if source_asset == pool.token_b_mint {
        false
    } else {
        return Err(CustomError::InvalidToken);
    };
    let input_reserve: u64 = if a_to_b {
        reserve_a
    } else {
        reserve_b
    };
    let output_reserve: u64 = if a_to_b {
        reserve_b
    } else {
        reserve_a
    };
    let new_input_reserve: u64 = match input_reserve.checked_add(amount_in) {
        None => {
            return Err(CustomError::InvalidAmount);
        },
        Some(v) => v,
    };
    proof {
        lemma_mul_upper_bound(
            input_reserve as int,
            u64::MAX as int,
            output_reserve as int,
            u64::MAX as int,
        );
        lemma_output_reserve_bounds(input_reserve, output_reserve, amount_in);
    }
    let product: u128 = (input_reserve as u128) * (output_reserve as u128);
    let new_output_128: u128 = product / (new_input_reserve as u128);
    let gross: u64 = output_reserve - (new_output_128 as u64);
    proof {
        lemma_mul_upper_bound(gross as int, u64::MAX as int, pool.fee_rate as int, 10000);
        lemma_fee_within_gross(gross, pool.fee_rate);
    }
    let fee: u64 = (((gross as u128) * (pool.fee_rate as u128)) / 10000) as u64;
    let counter: u64 = if a_to_b {
        pool.total_fees_b
    } else {
        pool.total_fees_a
    };
    let new_counter: u64 = match counter.checked_add(fee) {
        None => {
            return Err(CustomError::InvalidAmount);
        },
        Some(v) => v,
    };
    let amount_out: u64 = gross - fee;
    if amount_out < min_amount_out {
        return Err(CustomError::SlippageExceeded);
    }
    if a_to_b {
        pool.total_fees_b = new_counter;
    } else {
        pool.total_fees_a = new_counter;
    }
    Ok(SwapOutcome { a_to_b, amount_out, fee })
}

} // verus!
