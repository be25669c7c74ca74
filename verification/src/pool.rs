use vstd::prelude::*;

verus! {

use crate::errors::CustomError;

/// The persistent record describing one pool's configuration and accumulated
/// fees.
///
/// All identities (asset mints, vaults, the LP mint, the custody authority
/// and the admin) are external-ledger ids held as plain integers: the engine
/// only ever compares them, it never interprets them. Live reserve balances
/// and the LP supply are authoritative in the external ledger and are handed
/// to each operation as arguments, never cached here.
#[derive(Clone, Copy, Debug, PartialEq, Eq, Structural)]
pub struct SwapPool {
    /// Mint id of asset A; fixed at creation.
    pub token_a_mint: u64,
    /// Mint id of asset B; fixed at creation.
    pub token_b_mint: u64,
    /// Ledger account holding the asset-A reserve.
    pub token_a_vault: u64,
    /// Ledger account holding the asset-B reserve.
    pub token_b_vault: u64,
    /// Mint id of the liquidity-provider share token.
    pub lp_mint: u64,
    /// Custody authority the host signs outgoing movements as.
    pub pool_authority: u64,
    /// Swap fee in basis points, at most 1000 (10%).
    pub fee_rate: u64,
    /// Derivation seed of the custody authority; fixed at creation.
    pub bump: u8,
    /// Emergency pause flag gating the mutating operations.
    pub is_paused: bool,
    /// Identity authorized for admin operations and fee collection.
    pub admin: u64,
    /// Fees accrued in asset A since the last collection.
    pub total_fees_a: u64,
    /// Fees accrued in asset B since the last collection.
    pub total_fees_b: u64,
}

impl SwapPool {
    /// Well-formedness: the fee rate respects the cap and the two traded
    /// assets are distinct. `initialize_pool` establishes it and every
    /// operation preserves it.
    pub open spec fn wf(self) -> bool {
        self.fee_rate <= 1000 && self.token_a_mint != self.token_b_mint
    }
}

/// The pool record `initialize_pool` yields for every input.
pub open spec fn initialize_pool_spec(
    fee_rate: u64,
    bump: u8,
    token_a_mint: u64,
    token_b_mint: u64,
    token_a_vault: u64,
    token_b_vault: u64,
    lp_mint: u64,
    pool_authority: u64,
    admin: u64,
) -> Result<SwapPool, CustomError> {
    if fee_rate > 1000 {
        Err(CustomError::FeeTooHigh)
    } else {
        Ok(
            SwapPool {
                token_a_mint,
                token_b_mint,
                token_a_vault,
                token_b_vault,
                lp_mint,
                pool_authority,
                fee_rate,
                bump,
                is_paused: false,
                admin,
                total_fees_a: 0,
                total_fees_b: 0,
            },
        )
    }
}

/// Creates one pool's record: rejects a fee rate above 1000 basis points
/// with `FeeTooHigh`, otherwise starts unpaused, with zero fee counters and
/// the initializer as admin. No asset movement occurs here; the host wires
/// the vaults and the LP mint to the custody authority beforehand.
pub fn initialize_pool(
    fee_rate: u64,
    bump: u8,
    token_a_mint: u64,
    token_b_mint: u64,
    token_a_vault: u64,
    token_b_vault: u64,
    lp_mint: u64,
    pool_authority: u64,
    admin: u64,
) -> (r: Result<SwapPool, CustomError>)
    requires
        token_a_mint != token_b_mint,
    ensures
        r == initialize_pool_spec(
            fee_rate,
            bump,
            token_a_mint,
            token_b_mint,
            token_a_vault,
            token_b_vault,
            lp_mint,
            pool_authority,
            admin,
        ),
        r matches Ok(p) ==> p.wf(),
{
    if fee_rate > 1000 {
        return Err(CustomError::FeeTooHigh);
    }
    Ok(
        SwapPool {
            token_a_mint,
            token_b_mint,
            token_a_vault,
            token_b_vault,
            lp_mint,
            pool_authority,
            fee_rate,
            bump,
            is_paused: false,
            admin,
            total_fees_a: 0,
            total_fees_b: 0,
        },
    )
}

/// Pause gate for host-forwarded vault maintenance (syncing a wrapped-native
/// vault's balance). `Ok` means the host may forward the sync instruction;
/// the instruction itself moves no pool state tracked here.
pub fn sync_native(pool: &SwapPool) -> (r: Result<(), CustomError>)
    ensures
        r == if pool.is_paused {
            Err::<(), CustomError>(CustomError::PoolPaused)
        } else {
            Ok::<(), CustomError>(())
        },
{
    if pool.is_paused {
        return Err(CustomError::PoolPaused);
    }
    Ok(())
}

} // verus!
