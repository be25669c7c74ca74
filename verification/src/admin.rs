use vstd::prelude::*;

verus! {

use crate::errors::CustomError;
use crate::pool::SwapPool;

/// The pool record `set_paused` leaves behind for every input.
pub open spec fn set_paused_spec(pool: SwapPool, caller: u64, paused: bool) -> Result<
    SwapPool,
    CustomError,
> {
    if caller != pool.admin {
        Err(CustomError::Unauthorized)
    } else {
        Ok(SwapPool { is_paused: paused, ..pool })
    }
}

/// The pool record `update_fee_rate` leaves behind for every input.
pub open spec fn update_fee_rate_spec(pool: SwapPool, caller: u64, new_fee_rate: u64) -> Result<
    SwapPool,
    CustomError,
> {
    if caller != pool.admin {
        Err(CustomError::Unauthorized)
    } else if new_fee_rate > 1000 {
        Err(CustomError::FeeTooHigh)
    } else {
        Ok(SwapPool { fee_rate: new_fee_rate, ..pool })
    }
}

/// The pool record `transfer_admin` leaves behind for every input.
pub open spec fn transfer_admin_spec(pool: SwapPool, caller: u64, new_admin: u64) -> Result<
    SwapPool,
    CustomError,
> {
    if caller != pool.admin {
        Err(CustomError::Unauthorized)
    } else {
        Ok(SwapPool { admin: new_admin, ..pool })
    }
}

/// Sets the pause flag. Only the admin may do so; an unauthorized caller
/// fails with `Unauthorized` and leaves the pool untouched.
pub fn set_paused(pool: &mut SwapPool, caller: u64, paused: bool) -> (r: Result<(), CustomError>)
    ensures
        set_paused_spec(*old(pool), caller, paused) matches Ok(p) ==> r == Ok::<(), CustomError>(())
            && *final(pool) == p,
        set_paused_spec(*old(pool), caller, paused) matches Err(e) ==> r == Err::<(), CustomError>(
            e,
        ) && *final(pool) == *old(pool),
        old(pool).wf() ==> final(pool).wf(),
{
    if caller != pool.admin {
        return Err(CustomError::Unauthorized);
    }
    pool.is_paused = paused;
    Ok(())
}

/// Replaces the fee rate. Only the admin may do so, and a rate above 1000
/// basis points is rejected with `FeeTooHigh`; on any failure the pool is
/// left untouched.
pub fn update_fee_rate(pool: &mut SwapPool, caller: u64, new_fee_rate: u64) -> (r: Result<
    (),
    CustomError,
>)
    ensures
        update_fee_rate_spec(*old(pool), caller, new_fee_rate) matches Ok(p) ==> r == Ok::<
            (),
            CustomError,
        >(()) && *final(pool) == p,
        update_fee_rate_spec(*old(pool), caller, new_fee_rate) matches Err(e) ==> r == Err::<
            (),
            CustomError,
        >(e) && *final(pool) == *old(pool),
        old(pool).wf() ==> final(pool).wf(),
{
    if caller != pool.admin {
        return Err(CustomError::Unauthorized);
    }
    if new_fee_rate > 1000 {
        return Err(CustomError::FeeTooHigh);
    }
    pool.fee_rate = new_fee_rate;
    Ok(())
}

/// Replaces the admin identity. Only the current admin may do so; an
/// unauthorized caller fails with `Unauthorized` and leaves the pool
/// untouched.
pub fn transfer_admin(pool: &mut SwapPool, caller: u64, new_admin: u64) -> (r: Result<
    (),
    CustomError,
>)
    ensures
        transfer_admin_spec(*old(pool), caller, new_admin) matches Ok(p) ==> r == Ok::<
            (),
            CustomError,
        >(()) && *final(pool) == p,
        transfer_admin_spec(*old(pool), caller, new_admin) matches Err(e) ==> r == Err::<
            (),
            CustomError,
        >(e) && *final(pool) == *old(pool),
        old(pool).wf() ==> final(pool).wf(),
{
    if caller != pool.admin {
        return Err(CustomError::Unauthorized);
    }
    pool.admin = new_admin;
    Ok(())
}

/// Placeholder for future upgrades: verifies admin authority and changes
/// nothing. The version argument is recorded nowhere yet.
pub fn update_pool_version(pool: &SwapPool, caller: u64, _new_version: u8) -> (r: Result<
    (),
    CustomError,
>)
    ensures
        r == if caller == pool.admin {
            Ok::<(), CustomError>(())
        } else {
            Err::<(), CustomError>(CustomError::Unauthorized)
        },
{
    if caller != pool.admin {
        return Err(CustomError::Unauthorized);
    }
    Ok(())
}

} // verus!
