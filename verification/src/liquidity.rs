use vstd::prelude::*;

verus! {

use crate::errors::CustomError;
use crate::math::{isqrt, lemma_sqrt_floor_bounds, mul_div_u64, muldiv, sqrt_floor};
use crate::pool::SwapPool;

use vstd::arithmetic::mul::lemma_mul_upper_bound;

/// The amounts a proportional deposit actually moves, and the LP shares
/// minted for them. The host transfers `amount_a` and `amount_b` from the
/// provider into the vaults and mints `lp_minted` shares to the provider.
#[derive(Clone, Copy, Debug, PartialEq, Eq, Structural)]
pub struct LiquidityDeposit {
    pub amount_a: u64,
    pub amount_b: u64,
    pub lp_minted: u64,
}

/// The amounts a redemption pays out. The host burns the redeemed shares and
/// transfers `amount_a` and `amount_b` from the vaults to the provider.
#[derive(Clone, Copy, Debug, PartialEq, Eq, Structural)]
pub struct LiquidityWithdrawal {
    pub amount_a: u64,
    pub amount_b: u64,
}

/// LP shares issued for the very first deposit: the geometric mean of the two
/// amounts, taken as the product of the integer square roots. It always fits
/// in 64 bits (`lemma_initial_lp_fits`).
pub open spec fn initial_lp_amount(amount_a: u64, amount_b: u64) -> nat {
    sqrt_floor(amount_a as nat) * sqrt_floor(amount_b as nat)
}

/// The initial issuance never overflows: each square root is below 2^32.
pub proof fn lemma_initial_lp_fits(amount_a: u64, amount_b: u64)
    ensures
        initial_lp_amount(amount_a, amount_b) <= u64::MAX,
{
    let sa: nat = sqrt_floor(amount_a as nat);
    let sb: nat = sqrt_floor(amount_b as nat);
    lemma_sqrt_floor_bounds(amount_a as nat);
    lemma_sqrt_floor_bounds(amount_b as nat);
    assert(sa <= 4294967295) by (nonlinear_arith)
        requires
            sa * sa <= u64::MAX,
    ;
    assert(sb <= 4294967295) by (nonlinear_arith)
        requires
            sb * sb <= u64::MAX,
    ;
    lemma_mul_upper_bound(sa as int, 4294967295, sb as int, 4294967295);
}

/// What the first liquidity provision yields for every input.
pub open spec fn add_initial_liquidity_spec(amount_a: u64, amount_b: u64) -> Result<
    u64,
    CustomError,
> {
    if amount_a == 0 || amount_b == 0 {
        Err(CustomError::InvalidAmount)
    } else {
        Ok(initial_lp_amount(amount_a, amount_b) as u64)
    }
}

/// Prices the very first liquidity deposit: both amounts must be positive
/// (else `InvalidAmount`), and the LP shares minted are the geometric mean
/// `isqrt(amount_a) * isqrt(amount_b)`, taken over integer square roots so
/// the issuance is exact and platform-independent. This is the one issuance
/// not proportional to existing supply, since supply is still zero. The host
/// transfers both amounts into the vaults and mints the returned shares.
pub fn add_initial_liquidity(amount_a: u64, amount_b: u64) -> (r: Result<u64, CustomError>)
    ensures
        r == add_initial_liquidity_spec(amount_a, amount_b),
{
    if amount_a == 0 || amount_b == 0 {
        return Err(CustomError::InvalidAmount);
    }
    let sa: u64 = isqrt(amount_a);
    let sb: u64 = isqrt(amount_b);
    proof {
        lemma_initial_lp_fits(amount_a, amount_b);
    }
    Ok(sa * sb)
}

/// The last step of a proportional deposit: LP shares are the smaller of the
/// two ratio-implied counts, `min(amount_a * supply / reserve_a, amount_b *
/// supply / reserve_b)`, which penalizes imbalance; a count that does not fit
/// in 64 bits fails with `InvalidAmount`.
pub open spec fn deposit_shares_spec(
    amount_a: u64,
    amount_b: u64,
    reserve_a: u64,
    reserve_b: u64,
    lp_supply: u64,
) -> Result<LiquidityDeposit, CustomError> {
    let shares_a = muldiv(amount_a as int, lp_supply as int, reserve_a as int);
    let shares_b = muldiv(amount_b as int, lp_supply as int, reserve_b as int);
    if shares_a > u64::MAX || shares_b > u64::MAX {
        Err(CustomError::InvalidAmount)
    } else {
        Ok(
            LiquidityDeposit {
                amount_a,
                amount_b,
                lp_minted: (if shares_a <= shares_b {
                    shares_a
                } else {
                    shares_b
                }) as u64,
            },
        )
    }
}

/// What a proportional deposit yields for every input.
pub open spec fn add_liquidity_spec(
    pool: SwapPool,
    reserve_a: u64,
    reserve_b: u64,
    lp_supply: u64,
    amount_a_desired: u64,
    amount_b_desired: u64,
    amount_a_min: u64,
    amount_b_min: u64,
) -> Result<LiquidityDeposit, CustomError> {
    if pool.is_paused {
        Err(CustomError::PoolPaused)
    } else if amount_a_desired == 0 || amount_b_desired == 0 {
        Err(CustomError::InvalidAmount)
    } else if reserve_a == 0 || reserve_b == 0 {
        Err(CustomError::InsufficientLiquidity)
    } else {
        let optimal_b = muldiv(amount_a_desired as int, reserve_b as int, reserve_a as int);
        if optimal_b > u64::MAX {
            Err(CustomError::InvalidAmount)
        } else if amount_b_desired >= optimal_b {
            if optimal_b < amount_b_min {
                Err(CustomError::SlippageExceeded)
            } else {
                deposit_shares_spec(
                    amount_a_desired,
                    optimal_b as u64,
                    reserve_a,
                    reserve_b,
                    lp_supply,
                )
            }
        } else {
            let optimal_a = muldiv(amount_b_desired as int, reserve_a as int, reserve_b as int);
            if optimal_a > u64::MAX {
                Err(CustomError::InvalidAmount)
            } else if optimal_a < amount_a_min {
                Err(CustomError::SlippageExceeded)
            } else {
                deposit_shares_spec(
                    optimal_a as u64,
                    amount_b_desired,
                    reserve_a,
                    reserve_b,
                    lp_supply,
                )
            }
        }
    }
}

/// Prices a deposit against live reserves and supply. The accepted amounts
/// stay on the current reserve ratio: either the full desired A with its
/// proportional B, or, when the desired B is short of that, the full desired
/// B with its proportional A; the amount chosen by the engine must meet the
/// caller's minimum (else `SlippageExceeded`). Fails `PoolPaused` while
/// paused, `InvalidAmount` on a zero desired amount or an amount that
/// overflows 64 bits, and `InsufficientLiquidity` when either reserve is
/// zero. Nothing here moves assets: the host transfers the returned amounts
/// and mints the returned shares only on `Ok`.
pub fn add_liquidity(
    pool: &SwapPool,
    reserve_a: u64,
    reserve_b: u64,
    lp_supply: u64,
    amount_a_desired: u64,
    amount_b_desired: u64,
    amount_a_min: u64,
    amount_b_min: u64,
) -> (r: Result<LiquidityDeposit, CustomError>)
    ensures
        r == add_liquidity_spec(
            *pool,
            reserve_a,
            reserve_b,
            lp_supply,
            amount_a_desired,
            amount_b_desired,
            amount_a_min,
            amount_b_min,
        ),
{
    if pool.is_paused {
        return Err(CustomError::PoolPaused);
    }
    if amount_a_desired == 0 || amount_b_desired == 0 {
        return Err(CustomError::InvalidAmount);
    }
    if reserve_a == 0 || reserve_b == 0 {
        return Err(CustomError::InsufficientLiquidity);
    }
    let optimal_b: u64 = match mul_div_u64(amount_a_desired, reserve_b, reserve_a) {
        None => {
            return Err(CustomError::InvalidAmount);
        },
        Some(v) => v,
    };
    let amount_a: u64;
    let amount_b: u64;
    if amount_b_desired >= optimal_b {
        if optimal_b < amount_b_min {
            return Err(CustomError::SlippageExceeded);
        }
        amount_a = amount_a_desired;
        amount_b = optimal_b;
    } else {
        let optimal_a: u64 = match mul_div_u64(amount_b_desired, reserve_a, reserve_b) {
            None => {
                return Err(CustomError::InvalidAmount);
            },
            Some(v) => v,
        };
        if optimal_a < amount_a_min {
            return Err(CustomError::SlippageExceeded);
        }
        amount_a = optimal_a;
        amount_b = amount_b_desired;
    }
    let shares_a: u64 = match mul_div_u64(amount_a, lp_supply, reserve_a) {
        None => {
            return Err(CustomError::InvalidAmount);
        },
        Some(v) => v,
    };
    let shares_b: u64 = match mul_div_u64(amount_b, lp_supply, reserve_b) {
        None => {
            return Err(CustomError::InvalidAmount);
        },
        Some(v) => v,
    };
    let lp_minted: u64 = if shares_a <= shares_b {
        shares_a
    } else {
        shares_b
    };
    Ok(LiquidityDeposit { amount_a, amount_b, lp_minted })
}

/// What a redemption yields for every input.
pub open spec fn remove_liquidity_spec(
    pool: SwapPool,
    reserve_a: u64,
    reserve_b: u64,
    lp_supply: u64,
    lp_amount: u64,
    amount_a_min: u64,
    amount_b_min: u64,
) -> Result<LiquidityWithdrawal, CustomError> {
    if pool.is_paused {
        Err(CustomError::PoolPaused)
    } else if lp_amount == 0 || lp_supply == 0 {
        Err(CustomError::InvalidAmount)
    } else {
        let amount_a = muldiv(lp_amount as int, reserve_a as int, lp_supply as int);
        let amount_b = muldiv(lp_amount as int, reserve_b as int, lp_supply as int);
        if amount_a > u64::MAX || amount_b > u64::MAX {
            Err(CustomError::InvalidAmount)
        } else if amount_a < amount_a_min {
            Err(CustomError::SlippageExceeded)
        } else if amount_b < amount_b_min {
            Err(CustomError::SlippageExceeded)
        } else {
            Ok(LiquidityWithdrawal { amount_a: amount_a as u64, amount_b: amount_b as u64 })
        }
    }
}

/// Prices a pro-rata redemption: each payout is `lp_amount * reserve /
/// supply`, floored, and must meet the caller's minimum (else
/// `SlippageExceeded`). Fails `PoolPaused` while paused and `InvalidAmount`
/// on a zero share count, a zero supply, or a payout that overflows 64 bits.
/// On `Ok` the host burns `lp_amount` shares and transfers both payouts out
/// of the vaults, signed by the custody authority.
pub fn remove_liquidity(
    pool: &SwapPool,
    reserve_a: u64,
    reserve_b: u64,
    lp_supply: u64,
    lp_amount: u64,
    amount_a_min: u64,
    amount_b_min: u64,
) -> (r: Result<LiquidityWithdrawal, CustomError>)
    ensures
        r == remove_liquidity_spec(
            *pool,
            reserve_a,
            reserve_b,
            lp_supply,
            lp_amount,
            amount_a_min,
            amount_b_min,
        ),
{
    if pool.is_paused {
        return Err(CustomError::PoolPaused);
    }
    if lp_amount == 0 || lp_supply == 0 {
        return Err(CustomError::InvalidAmount);
    }
    let amount_a: u64 = match mul_div_u64(lp_amount, reserve_a, lp_supply) {
        None => {
            return Err(CustomError::InvalidAmount);
        },
        Some(v) => v,
    };
    let amount_b: u64 = match mul_div_u64(lp_amount, reserve_b, lp_supply) {
        None => {
            return Err(CustomError::InvalidAmount);
        },
        Some(v) => v,
    };
    if amount_a < amount_a_min {
        return Err(CustomError::SlippageExceeded);
    }
    if amount_b < amount_b_min {
        return Err(CustomError::SlippageExceeded);
    }
    Ok(LiquidityWithdrawal { amount_a, amount_b })
}

} // verus!
