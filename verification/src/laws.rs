use vstd::prelude::*;

verus! {

use crate::admin::{set_paused_spec, transfer_admin_spec, update_fee_rate_spec};
use crate::analytics::simulate_swap_spec;
use crate::errors::CustomError;
use crate::fees::{collect_fees_spec, FeePayout};
use crate::liquidity::{
    add_liquidity_spec,
    remove_liquidity_spec,
    LiquidityDeposit,
    LiquidityWithdrawal,
};
use crate::pool::{initialize_pool_spec, SwapPool};
use crate::swap::{new_output_reserve, swap_spec, SwapOutcome};

use vstd::arithmetic::div_mod::{lemma_div_multiples_vanish, lemma_fundamental_div_mod};
use vstd::arithmetic::mul::lemma_mul_is_distributive_add;

/// A fee rate above 1000 basis points is never accepted: pool initialization
/// rejects it with `FeeTooHigh`, and a fee-rate update rejects it for every
/// caller — with `FeeTooHigh` for the admin, and before that with
/// `Unauthorized` for anyone else.
pub proof fn lemma_fee_bound(
    pool: SwapPool,
    caller: u64,
    fee_rate: u64,
    bump: u8,
    token_a_mint: u64,
    token_b_mint: u64,
    token_a_vault: u64,
    token_b_vault: u64,
    lp_mint: u64,
    pool_authority: u64,
    admin: u64,
)
    requires
        fee_rate > 1000,
    ensures
        initialize_pool_spec(
            fee_rate,
            bump,
            token_a_mint,
            token_b_mint,
            token_a_vault,
            token_b_vault,
            lp_mint,
            pool_authority,
            admin,
        ) == Err::<SwapPool, CustomError>(CustomError::FeeTooHigh),
        update_fee_rate_spec(pool, caller, fee_rate) matches Err(_),
        update_fee_rate_spec(pool, pool.admin, fee_rate) == Err::<SwapPool, CustomError>(
            CustomError::FeeTooHigh,
        ),
{
}

/// Redeeming the whole LP supply returns both reserves exactly: the pro-rata
/// formula `lp * reserve / supply` loses nothing when `lp == supply`.
pub proof fn lemma_full_redemption(
    pool: SwapPool,
    reserve_a: u64,
    reserve_b: u64,
    lp_supply: u64,
    amount_a_min: u64,
    amount_b_min: u64,
)
    requires
        !pool.is_paused,
        lp_supply > 0,
        amount_a_min <= reserve_a,
        amount_b_min <= reserve_b,
    ensures
        remove_liquidity_spec(
            pool,
            reserve_a,
            reserve_b,
            lp_supply,
            lp_supply,
            amount_a_min,
            amount_b_min,
        ) == Ok::<LiquidityWithdrawal, CustomError>(
            LiquidityWithdrawal { amount_a: reserve_a, amount_b: reserve_b },
        ),
{
    lemma_div_multiples_vanish(reserve_a as int, lp_supply as int);
    lemma_div_multiples_vanish(reserve_b as int, lp_supply as int);
}

/// While a pool is paused, deposits, redemptions and swaps all fail with
/// `PoolPaused`, whatever their other arguments; the admin can still flip the
/// pause flag back and update the fee rate. Read-only queries take no pause
/// guard at all, and every operation's own contract says that a failure
/// leaves the pool record untouched.
pub proof fn lemma_pause_gating(
    pool: SwapPool,
    reserve_a: u64,
    reserve_b: u64,
    lp_supply: u64,
    amount_a_desired: u64,
    amount_b_desired: u64,
    amount_a_min: u64,
    amount_b_min: u64,
    lp_amount: u64,
    source_asset: u64,
    amount_in: u64,
    min_amount_out: u64,
    new_fee_rate: u64,
)
    requires
        pool.is_paused,
        new_fee_rate <= 1000,
    ensures
        add_liquidity_spec(
            pool,
            reserve_a,
            reserve_b,
            lp_supply,
            amount_a_desired,
            amount_b_desired,
            amount_a_min,
            amount_b_min,
        ) == Err::<LiquidityDeposit, CustomError>(CustomError::PoolPaused),
        remove_liquidity_spec(
            pool,
            reserve_a,
            reserve_b,
            lp_supply,
            lp_amount,
            amount_a_min,
            amount_b_min,
        ) == Err::<LiquidityWithdrawal, CustomError>(CustomError::PoolPaused),
        swap_spec(pool, reserve_a, reserve_b, source_asset, amount_in, min_amount_out) == Err::<
            SwapOutcome,
            CustomError,
        >(CustomError::PoolPaused),
        set_paused_spec(pool, pool.admin, false) == Ok::<SwapPool, CustomError>(
            (SwapPool { is_paused: false, ..pool }),
        ),
        update_fee_rate_spec(pool, pool.admin, new_fee_rate) == Ok::<SwapPool, CustomError>(
            (SwapPool { fee_rate: new_fee_rate, ..pool }),
        ),
{
}

/// A caller other than the admin gets `Unauthorized` from fee collection and
/// from every admin operation; each operation's own contract adds that the
/// pool record is then left untouched.
pub proof fn lemma_unauthorized_guard(
    pool: SwapPool,
    caller: u64,
    paused: bool,
    new_fee_rate: u64,
    new_admin: u64,
)
    requires
        caller != pool.admin,
    ensures
        collect_fees_spec(pool, caller) == Err::<FeePayout, CustomError>(CustomError::Unauthorized),
        set_paused_spec(pool, caller, paused) == Err::<SwapPool, CustomError>(
            CustomError::Unauthorized,
        ),
        update_fee_rate_spec(pool, caller, new_fee_rate) == Err::<SwapPool, CustomError>(
            CustomError::Unauthorized,
        ),
        transfer_admin_spec(pool, caller, new_admin) == Err::<SwapPool, CustomError>(
            CustomError::Unauthorized,
        ),
{
}

/// A swap simulation is a pure function of the fee rate, the reserves and
/// the input: any two results meeting its contract on identical inputs are
/// identical. The query takes the pool by shared reference, so reserves and
/// fee counters cannot move under it.
pub proof fn lemma_simulate_swap_pure(
    fee_rate: u64,
    reserve_a: u64,
    reserve_b: u64,
    amount_in: u64,
    is_a_to_b: bool,
    r1: Result<u64, CustomError>,
    r2: Result<u64, CustomError>,
)
    requires
        r1 == simulate_swap_spec(fee_rate, reserve_a, reserve_b, amount_in, is_a_to_b),
        r2 == simulate_swap_spec(fee_rate, reserve_a, reserve_b, amount_in, is_a_to_b),
    ensures
        r1 == r2,
{
}

/// A simulation prices exactly what an executed swap pays out: whenever a
/// swap succeeds, simulating the same direction over the same reserves
/// returns its net output.
pub proof fn lemma_simulate_matches_swap(
    pool: SwapPool,
    reserve_a: u64,
    reserve_b: u64,
    source_asset: u64,
    amount_in: u64,
    min_amount_out: u64,
    outcome: SwapOutcome,
)
    requires
        swap_spec(pool, reserve_a, reserve_b, source_asset, amount_in, min_amount_out) == Ok::<
            SwapOutcome,
            CustomError,
        >(outcome),
    ensures
        simulate_swap_spec(pool.fee_rate, reserve_a, reserve_b, amount_in, outcome.a_to_b) == Ok::<
            u64,
            CustomError,
        >(outcome.amount_out),
{
}

/// The constant-product rule, pre-fee: the reserve product after a swap
/// never exceeds the product before it, and falls short only by the floor
/// rounding — one more unit of output reserve would already overshoot.
pub proof fn lemma_constant_product_invariant(input_reserve: u64, output_reserve: u64, amount_in: u64)
    requires
        input_reserve + amount_in > 0,
        input_reserve + amount_in <= u64::MAX,
    ensures
        (input_reserve + amount_in) * new_output_reserve(input_reserve, output_reserve, amount_in)
            <= input_reserve * output_reserve,
        input_reserve * output_reserve < (input_reserve + amount_in) * (new_output_reserve(
            input_reserve,
            output_reserve,
            amount_in,
        ) + 1),
{
    let product: int = input_reserve * output_reserve;
    let d: int = input_reserve + amount_in;
    lemma_fundamental_div_mod(product, d);
    lemma_mul_is_distributive_add(d, product / d, 1);
}

} // verus!
