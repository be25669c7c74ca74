use token_swap::admin::set_paused;
use token_swap::errors::CustomError;
use token_swap::liquidity::{
    add_initial_liquidity, add_liquidity, remove_liquidity, LiquidityDeposit, LiquidityWithdrawal,
};
use token_swap::math::isqrt;
use token_swap::pool::{initialize_pool, SwapPool};

const ADMIN: u64 = 900;

fn fresh_pool() -> SwapPool {
    initialize_pool(30, 250, 1, 2, 3, 4, 5, 6, ADMIN).expect("pool creation")
}

#[test]
fn isqrt_exact_values() {
    assert_eq!(isqrt(0), 0);
    assert_eq!(isqrt(1), 1);
    assert_eq!(isqrt(2), 1);
    assert_eq!(isqrt(3), 1);
    assert_eq!(isqrt(4), 2);
    assert_eq!(isqrt(99), 9);
    assert_eq!(isqrt(100), 10);
    assert_eq!(isqrt(u64::MAX), 4294967295);
}

#[test]
fn initial_liquidity_mints_geometric_mean() {
    assert_eq!(add_initial_liquidity(100, 400), Ok(200));
}

#[test]
fn initial_liquidity_floors_each_root() {
    // isqrt(99) = 9 and isqrt(5) = 2
    assert_eq!(add_initial_liquidity(99, 5), Ok(18));
}

#[test]
fn initial_liquidity_extreme_amounts_do_not_overflow() {
    assert_eq!(add_initial_liquidity(u64::MAX, u64::MAX), Ok(4294967295 * 4294967295));
    assert_eq!(add_initial_liquidity(u64::MAX, 1), Ok(4294967295));
}

#[test]
fn initial_liquidity_rejects_zero_amounts() {
    assert_eq!(add_initial_liquidity(0, 400), Err(CustomError::InvalidAmount));
    assert_eq!(add_initial_liquidity(100, 0), Err(CustomError::InvalidAmount));
}

#[test]
fn proportional_deposit_takes_optimal_b() {
    let pool = fresh_pool();
    assert_eq!(
        add_liquidity(&pool, 1000, 2000, 1000, 100, 300, 0, 0),
        Ok(LiquidityDeposit { amount_a: 100, amount_b: 200, lp_minted: 100 })
    );
}

#[test]
fn proportional_deposit_takes_optimal_a_when_b_is_short() {
    let pool = fresh_pool();
    // desired B of 100 is below the proportional 200, so A shrinks to 50
    assert_eq!(
        add_liquidity(&pool, 1000, 2000, 1000, 100, 100, 0, 0),
        Ok(LiquidityDeposit { amount_a: 50, amount_b: 100, lp_minted: 50 })
    );
}

#[test]
fn deposit_shares_penalize_imbalance() {
    let pool = fresh_pool();
    // accepted amounts (7, 14) against reserves (1000, 2000): shares are
    // min(7 * 1000 / 1000, 14 * 1000 / 2000) = min(7, 7) = 7
    assert_eq!(
        add_liquidity(&pool, 1000, 2000, 1000, 7, 20, 0, 0),
        Ok(LiquidityDeposit { amount_a: 7, amount_b: 14, lp_minted: 7 })
    );
}

#[test]
fn deposit_slippage_guard_on_b_side() {
    let pool = fresh_pool();
    assert_eq!(
        add_liquidity(&pool, 1000, 2000, 1000, 100, 300, 0, 201),
        Err(CustomError::SlippageExceeded)
    );
}

#[test]
fn deposit_slippage_guard_on_a_side() {
    let pool = fresh_pool();
    assert_eq!(
        add_liquidity(&pool, 1000, 2000, 1000, 100, 100, 51, 0),
        Err(CustomError::SlippageExceeded)
    );
}

#[test]
fn deposit_rejects_zero_desired_amounts() {
    let pool = fresh_pool();
    assert_eq!(
        add_liquidity(&pool, 1000, 2000, 1000, 0, 300, 0, 0),
        Err(CustomError::InvalidAmount)
    );
    assert_eq!(
        add_liquidity(&pool, 1000, 2000, 1000, 100, 0, 0, 0),
        Err(CustomError::InvalidAmount)
    );
}

#[test]
fn deposit_rejects_empty_reserves() {
    let pool = fresh_pool();
    assert_eq!(
        add_liquidity(&pool, 0, 2000, 1000, 100, 300, 0, 0),
        Err(CustomError::InsufficientLiquidity)
    );
    assert_eq!(
        add_liquidity(&pool, 1000, 0, 1000, 100, 300, 0, 0),
        Err(CustomError::InsufficientLiquidity)
    );
}

#[test]
fn deposit_rejects_oversized_proportional_amount() {
    let pool = fresh_pool();
    // optimal B = u64::MAX * u64::MAX / 1 overflows 64 bits
    assert_eq!(
        add_liquidity(&pool, 1, u64::MAX, 10, u64::MAX, u64::MAX, 0, 0),
        Err(CustomError::InvalidAmount)
    );
}

#[test]
fn deposit_rejects_while_paused() {
    let mut pool = fresh_pool();
    set_paused(&mut pool, ADMIN, true).unwrap();
    assert_eq!(
        add_liquidity(&pool, 1000, 2000, 1000, 100, 300, 0, 0),
        Err(CustomError::PoolPaused)
    );
}

#[test]
fn redeeming_whole_supply_returns_both_reserves() {
    let pool = fresh_pool();
    assert_eq!(
        remove_liquidity(&pool, 123456, 789012, 1000, 1000, 0, 0),
        Ok(LiquidityWithdrawal { amount_a: 123456, amount_b: 789012 })
    );
}

#[test]
fn redemption_is_pro_rata_and_floored() {
    let pool = fresh_pool();
    // 3 of 7 shares over reserves (10, 20): floor(30/7) = 4, floor(60/7) = 8
    assert_eq!(
        remove_liquidity(&pool, 10, 20, 7, 3, 0, 0),
        Ok(LiquidityWithdrawal { amount_a: 4, amount_b: 8 })
    );
}

#[test]
fn redemption_slippage_guards() {
    let pool = fresh_pool();
    assert_eq!(
        remove_liquidity(&pool, 1000, 2000, 1000, 100, 101, 0),
        Err(CustomError::SlippageExceeded)
    );
    assert_eq!(
        remove_liquidity(&pool, 1000, 2000, 1000, 100, 0, 201),
        Err(CustomError::SlippageExceeded)
    );
}

#[test]
fn redemption_rejects_zero_shares_and_zero_supply() {
    let pool = fresh_pool();
    assert_eq!(
        remove_liquidity(&pool, 1000, 2000, 1000, 0, 0, 0),
        Err(CustomError::InvalidAmount)
    );
    assert_eq!(
        remove_liquidity(&pool, 1000, 2000, 0, 10, 0, 0),
        Err(CustomError::InvalidAmount)
    );
}

#[test]
fn redemption_rejects_oversized_payout() {
    let pool = fresh_pool();
    // u64::MAX shares of a 1-share supply over a u64::MAX reserve
    assert_eq!(
        remove_liquidity(&pool, u64::MAX, 1, 1, u64::MAX, 0, 0),
        Err(CustomError::InvalidAmount)
    );
}

#[test]
fn redemption_rejects_while_paused() {
    let mut pool = fresh_pool();
    set_paused(&mut pool, ADMIN, true).unwrap();
    assert_eq!(
        remove_liquidity(&pool, 1000, 2000, 1000, 100, 0, 0),
        Err(CustomError::PoolPaused)
    );
}
