use vstd::prelude::*;

use crate::address::Address;
use crate::error::VestingError;
use crate::records::{valid_schedule, VestingPool};

verus! {

/// What a pool's creation reads: the authority that creates it and the token
/// it sells.
#[derive(Clone, Copy, Debug)]
pub struct VestingSetup {
    pub user: Address,
    pub token_mint: Address,
}

/// Accepts a schedule whose ticks have positive length and which has at least
/// one tick.
pub fn check_schedule(vesting_start: u64, vesting_end: u64, vesting_ticks: u64) -> (r: Result<(), VestingError>)
    ensures
        valid_schedule(vesting_start as int, vesting_end as int, vesting_ticks as int) ==> r is Ok,
        !valid_schedule(vesting_start as int, vesting_end as int, vesting_ticks as int) ==> r == Err::<(), VestingError>(VestingError::InvalidSchedule),
{
    if vesting_start < vesting_end && 0 < vesting_ticks {
        Ok(())
    } else {
        Err(VestingError::InvalidSchedule)
    }
}

/// Creates a pool selling `amount` tokens at `price_per_sol`, on the given
/// schedule. `deposit_ok` is the outcome of moving `amount` tokens from the
/// authority into the pool's escrow; that transfer is made only for a valid
/// schedule (see `check_schedule`).
pub fn initialize(
    ctx: &VestingSetup,
    amount: u64,
    vesting_start: u64,
    vesting_end: u64,
    vesting_ticks: u64,
    price_per_sol: u64,
    deposit_ok: bool,
) -> (r: Result<VestingPool, VestingError>)
    ensures
        !valid_schedule(vesting_start as int, vesting_end as int, vesting_ticks as int) ==> r == Err::<VestingPool, VestingError>(VestingError::InvalidSchedule),
        valid_schedule(vesting_start as int, vesting_end as int, vesting_ticks as int) && !deposit_ok ==> r == Err::<VestingPool, VestingError>(VestingError::SetupFailed),
        valid_schedule(vesting_start as int, vesting_end as int, vesting_ticks as int) && deposit_ok ==> r == Ok::<VestingPool, VestingError>(
            VestingPool {
                authority: ctx.user,
                token_mint: ctx.token_mint,
                price_per_sol,
                total_amount: amount,
                claimed_amount: 0,
                vesting_start,
                vesting_end,
                vesting_ticks,
            },
        ),
        r matches Ok(pool) ==> pool.wf(),
{
    match check_schedule(vesting_start, vesting_end, vesting_ticks) {
        Ok(()) => {},
        Err(e) => return Err(e),
    }
    if !deposit_ok {
        return Err(VestingError::SetupFailed);
    }
    Ok(
        VestingPool {
            authority: ctx.user,
            token_mint: ctx.token_mint,
            price_per_sol,
            total_amount: amount,
            claimed_amount: 0,
            vesting_start,
            vesting_end,
            vesting_ticks,
        },
    )
}

} // verus!
