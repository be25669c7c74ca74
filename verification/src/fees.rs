use vstd::prelude::*;

verus! {

use crate::errors::CustomError;
use crate::pool::SwapPool;

/// The amounts a fee collection pays out, one per asset. The host transfers
/// each nonzero amount from the matching vault to the collector's account;
/// a zero amount is skipped, not an error.
#[derive(Clone, Copy, Debug, PartialEq, Eq, Structural)]
pub struct FeePayout {
    pub amount_a: u64,
    pub amount_b: u64,
}

/// The payout `collect_fees` yields for every input.
pub open spec fn collect_fees_spec(pool: SwapPool, caller: u64) -> Result<FeePayout, CustomError> {
    if caller != pool.admin {
        Err(CustomError::Unauthorized)
    } else {
        Ok(FeePayout { amount_a: pool.total_fees_a, amount_b: pool.total_fees_b })
    }
}

/// A pool record with both fee counters cleared.
pub open spec fn reset_fees(pool: SwapPool) -> SwapPool {
    SwapPool { total_fees_a: 0, total_fees_b: 0, ..pool }
}

/// Reads both accumulated fee counters, resets them to zero, and returns the
/// amounts owed to the collector. Only the admin may collect; an unauthorized
/// caller fails with `Unauthorized` and leaves the counters untouched. The
/// counters are reset together with the payout, so a failed payout must be
/// rolled back with it by the host's atomic commit.
pub fn collect_fees(pool: &mut SwapPool, caller: u64) -> (r: Result<FeePayout, CustomError>)
    ensures
        r == collect_fees_spec(*old(pool), caller),
        r matches Ok(p) ==> *final(pool) == reset_fees(*old(pool)),
        r matches Err(e) ==> *final(pool) == *old(pool),
        old(pool).wf() ==> final(pool).wf(),
{
    if caller != pool.admin {
        return Err(CustomError::Unauthorized);
    }
    let payout = FeePayout { amount_a: pool.total_fees_a, amount_b: pool.total_fees_b };
    pool.total_fees_a = 0;
    pool.total_fees_b = 0;
    Ok(payout)
}

} // verus!
