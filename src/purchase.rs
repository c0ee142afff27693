use vstd::prelude::*;

use crate::address::Address;
use crate::amounts::{allocation, allocation_of};
use crate::error::VestingError;
use crate::records::{create_account_from_pool, fresh_account, VestingAccount, VestingPool};

verus! {

/// What a purchase reads and writes: the buyer, the time now, the pool, and
/// the buyer's account against it, if they have one yet.
#[derive(Clone, Copy, Debug)]
pub struct PurchaseVesting {
    pub user: Address,
    pub now: u64,
    pub vesting_pool: VestingPool,
    pub vesting_account: Option<VestingAccount>,
}

/// The account the purchase credits: the buyer's own, or a fresh one made from
/// the pool's schedule when they have none.
pub open spec fn account_for_purchase(ctx: PurchaseVesting) -> VestingAccount {
    match ctx.vesting_account {
        Some(account) => account,
        None => fresh_account(ctx.vesting_pool, ctx.user, ctx.now),
    }
}

/// The first failing check of a purchase paying `amount_paid`, in the order
/// they are made.
pub open spec fn purchase_error(ctx: PurchaseVesting, amount_paid: u64) -> Option<VestingError> {
    let allocated = allocation_of(amount_paid as int, ctx.vesting_pool.price_per_sol as int);
    if amount_paid * ctx.vesting_pool.price_per_sol > u64::MAX {
        Some(VestingError::ArithmeticOverflow)
    } else if allocated > ctx.vesting_pool.total_amount {
        Some(VestingError::InsufficientPoolSupply)
    } else if account_for_purchase(ctx).total_amount + allocated > u64::MAX {
        Some(VestingError::ArithmeticOverflow)
    } else {
        None
    }
}

/// `after` is `before` with `allocated` tokens taken from its unsold supply.
pub open spec fn pool_debited(before: VestingPool, after: VestingPool, allocated: int) -> bool {
    &&& 0 <= allocated <= before.total_amount
    &&& after == VestingPool { total_amount: (before.total_amount - allocated) as u64, ..before }
}

/// `after` is `before` with `allocated` tokens added to its allocation.
pub open spec fn account_credited(before: VestingAccount, after: VestingAccount, allocated: int) -> bool {
    &&& 0 <= allocated
    &&& before.total_amount + allocated <= u64::MAX
    &&& after == VestingAccount { total_amount: (before.total_amount + allocated) as u64, ..before }
}

/// Decides a purchase without changing anything: the tokens that
/// `amount_lamports` buys, or the first check that fails.
pub fn plan_purchase(ctx: &PurchaseVesting, amount_lamports: u64) -> (r: Result<u64, VestingError>)
    ensures
        purchase_error(*ctx, amount_lamports) matches Some(e) ==> r == Err::<u64, VestingError>(e),
        purchase_error(*ctx, amount_lamports) is None ==> r == Ok::<u64, VestingError>(
            allocation_of(amount_lamports as int, ctx.vesting_pool.price_per_sol as int) as u64,
        ),
{
    let allocated = match allocation(amount_lamports, ctx.vesting_pool.price_per_sol) {
        Ok(allocated) => allocated,
        Err(e) => return Err(e),
    };
    if allocated > ctx.vesting_pool.total_amount {
        return Err(VestingError::InsufficientPoolSupply);
    }
    let credited = match &ctx.vesting_account {
        Some(account) => account.total_amount,
        None => 0,
    };
    if allocated > u64::MAX - credited {
        return Err(VestingError::ArithmeticOverflow);
    }
    Ok(allocated)
}

/// A purchase paying `amount_lamports`. `payment_ok` is the outcome of moving
/// the payment from the buyer into the pool's escrow. When every check passes
/// and the payment went through, the tokens bought leave the pool's supply and
/// join the buyer's allocation, in one step; the buyer's account is created
/// from the pool's schedule if they had none, and the result is the buyer's
/// updated allocation. Otherwise nothing changes.
pub fn purchase_vesting(ctx: &mut PurchaseVesting, amount_lamports: u64, payment_ok: bool) -> (r: Result<u64, VestingError>)
    requires
        old(ctx).vesting_pool.wf(),
        old(ctx).vesting_account matches Some(account) ==> account.wf(),
    ensures
        final(ctx).vesting_pool.wf(),
        final(ctx).vesting_account matches Some(account) ==> account.wf(),
        purchase_error(*old(ctx), amount_lamports) matches Some(e) ==> r == Err::<u64, VestingError>(e),
        purchase_error(*old(ctx), amount_lamports) is None && !payment_ok ==> r == Err::<u64, VestingError>(VestingError::PaymentTransferFailed),
        purchase_error(*old(ctx), amount_lamports) is None && payment_ok ==> {
            let allocated = allocation_of(amount_lamports as int, old(ctx).vesting_pool.price_per_sol as int);
            let before = account_for_purchase(*old(ctx));
            &&& r == Ok::<u64, VestingError>((before.total_amount + allocated) as u64)
            &&& final(ctx).user == old(ctx).user
            &&& final(ctx).now == old(ctx).now
            &&& final(ctx).vesting_pool.total_amount == old(ctx).vesting_pool.total_amount - allocated
            &&& pool_debited(old(ctx).vesting_pool, final(ctx).vesting_pool, allocated)
            &&& final(ctx).vesting_account matches Some(account)
                && account.total_amount == before.total_amount + allocated
                && account_credited(before, account, allocated)
        },
        r is Err ==> *final(ctx) == *old(ctx),
        r matches Ok(total) ==> final(ctx).vesting_account matches Some(account) && total
            == account.total_amount,
{
    let allocated = match plan_purchase(ctx, amount_lamports) {
        Ok(allocated) => allocated,
        Err(e) => return Err(e),
    };
    if !payment_ok {
        return Err(VestingError::PaymentTransferFailed);
    }
    let mut account = match ctx.vesting_account {
        Some(account) => account,
        None => create_account_from_pool(&ctx.vesting_pool, ctx.user, ctx.now),
    };
    proof {
        assert(account.total_amount * account.used_ticks <= (account.total_amount + allocated)
            * account.used_ticks) by (nonlinear_arith);
    }
    account.total_amount = account.total_amount + allocated;
    ctx.vesting_pool.total_amount = ctx.vesting_pool.total_amount - allocated;
    ctx.vesting_account = Some(account);
    Ok(account.total_amount)
}

} // verus!
