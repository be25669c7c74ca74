use token_swap::analytics::{
    calculate_swap_result, get_pool_stats, get_pool_volume, get_token_a_price, get_token_b_price,
    get_user_pool_share,
};
use token_swap::errors::CustomError;
use token_swap::pool::{initialize_pool, SwapPool};

const ADMIN: u64 = 900;

fn fresh_pool(fee_rate: u64) -> SwapPool {
    initialize_pool(fee_rate, 250, 1, 2, 3, 4, 5, 6, ADMIN).expect("pool creation")
}

#[test]
fn prices_are_scaled_ratios() {
    // price of A in B: 2000 * 10^6 / 1000
    assert_eq!(get_token_a_price(1000, 2000), Ok(2_000_000));
    // price of B in A: 1000 * 10^6 / 2000
    assert_eq!(get_token_b_price(1000, 2000), Ok(500_000));
}

#[test]
fn prices_floor_the_quotient() {
    assert_eq!(get_token_a_price(3, 1000), Ok(333_333_333));
}

#[test]
fn price_of_empty_reserve_is_insufficient_liquidity() {
    assert_eq!(get_token_a_price(0, 2000), Err(CustomError::InsufficientLiquidity));
    assert_eq!(get_token_b_price(1000, 0), Err(CustomError::InsufficientLiquidity));
}

#[test]
fn price_overflow_is_calculation_failure() {
    assert_eq!(get_token_a_price(1, u64::MAX), Err(CustomError::CalculationFailure));
}

#[test]
fn pool_stats_report_inputs_unchanged() {
    assert_eq!(get_pool_stats(1000, 2000, 300), (1000, 2000, 300));
}

#[test]
fn pool_volume_is_not_tracked() {
    assert_eq!(get_pool_volume(), (0, 0));
}

#[test]
fn simulation_matches_swap_pricing() {
    let pool = fresh_pool(30);
    assert_eq!(calculate_swap_result(&pool, 10000, 10000, 1000, true), Ok(908));
}

#[test]
fn simulation_direction_picks_reserves() {
    let pool = fresh_pool(30);
    // b to a over reserves (20000, 10000): floor(10000 * 20000 / 11000) =
    // 18181, gross 1819, fee 5, net 1814
    assert_eq!(calculate_swap_result(&pool, 20000, 10000, 1000, false), Ok(1814));
}

#[test]
fn simulation_is_repeatable_and_mutates_nothing() {
    let pool = fresh_pool(30);
    let before = pool;
    let first = calculate_swap_result(&pool, 10000, 10000, 1000, true);
    let second = calculate_swap_result(&pool, 10000, 10000, 1000, true);
    assert_eq!(first, second);
    assert_eq!(pool, before);
}

#[test]
fn simulation_of_zero_input_owes_nothing() {
    let pool = fresh_pool(30);
    assert_eq!(calculate_swap_result(&pool, 10000, 10000, 0, true), Ok(0));
}

#[test]
fn simulation_arithmetic_failures() {
    let pool = fresh_pool(30);
    assert_eq!(
        calculate_swap_result(&pool, u64::MAX, 10000, 1, true),
        Err(CustomError::CalculationFailure)
    );
    assert_eq!(
        calculate_swap_result(&pool, 0, 10000, 0, true),
        Err(CustomError::CalculationFailure)
    );
}

#[test]
fn user_share_is_pro_rata_and_scaled() {
    // 250 of 1000 shares over reserves (4000, 8000)
    assert_eq!(get_user_pool_share(4000, 8000, 1000, 250), Ok((250_000, 1000, 2000)));
}

#[test]
fn user_share_with_zero_supply_is_all_zero() {
    assert_eq!(get_user_pool_share(4000, 8000, 0, 250), Ok((0, 0, 0)));
}

#[test]
fn user_share_overflow_is_calculation_failure() {
    // a balance far above the supply scales past 64 bits
    assert_eq!(
        get_user_pool_share(4000, 8000, 1, u64::MAX),
        Err(CustomError::CalculationFailure)
    );
}
