use vstd::prelude::*;

use crate::address::Address;
use crate::amounts::{lemma_release_within_allocation, release_of, wide_mul};
use crate::error::VestingError;
use crate::records::{VestingAccount, VestingPool};

verus! {

/// What a buyer's token claim reads: who asks, the time now, the pool's token
/// escrow balance, and the buyer's account.
#[derive(Clone, Copy, Debug)]
pub struct ClaimTokens {
    pub user: Address,
    pub now: u64,
    pub escrow_balance: u64,
    pub vesting_account: VestingAccount,
}

/// The release a token claim makes: whole ticks, and the tokens they free.
#[derive(Clone, Copy, Debug, PartialEq, Eq, Structural)]
pub struct TokenClaim {
    pub ticks: u64,
    pub amount: u64,
}

/// Time since the last claim; none when the clock reads earlier than that.
pub open spec fn elapsed_since_claim(account: VestingAccount, now: u64) -> int {
    if now >= account.last_claim {
        now - account.last_claim
    } else {
        0
    }
}

/// Whole ticks elapsed since the last claim, but no more than remain unused.
/// Partial ticks never count.
pub open spec fn ticks_due(account: VestingAccount, now: u64) -> int {
    let whole = elapsed_since_claim(account, now) / account.tick_duration();
    let remaining = account.vesting_ticks - account.used_ticks;
    if whole < remaining {
        whole
    } else {
        remaining
    }
}

/// The first failing check of a token claim, in the order they are made.
pub open spec fn token_claim_error(ctx: ClaimTokens) -> Option<VestingError> {
    let account = ctx.vesting_account;
    if ctx.user@ != account.authority@ {
        Some(VestingError::Unauthorized)
    } else if ctx.escrow_balance < account.total_amount {
        Some(VestingError::InsufficientEscrowTokens)
    } else if account.used_ticks >= account.vesting_ticks {
        Some(VestingError::VestingEnded)
    } else if elapsed_since_claim(account, ctx.now) < account.tick_duration() || ctx.now
        < account.vesting_start {
        Some(VestingError::NotTimeToClaim)
    } else {
        None
    }
}

/// The release due to the account at `now`.
pub open spec fn token_claim_due(account: VestingAccount, now: u64) -> TokenClaim {
    let ticks = ticks_due(account, now);
    TokenClaim {
        ticks: ticks as u64,
        amount: release_of(account.total_amount as int, ticks, account.vesting_ticks as int) as u64,
    }
}

/// The account after releasing `claim` at `now`: the release is added to what
/// was claimed, its ticks to the used ones, and the last claim moves to `now`.
/// Time past the last whole tick is not carried over to the next claim.
pub open spec fn account_after_claim(account: VestingAccount, claim: TokenClaim, now: u64) -> VestingAccount {
    VestingAccount {
        claimed_amount: (account.claimed_amount + claim.amount) as u64,
        used_ticks: (account.used_ticks + claim.ticks) as u64,
        last_claim: now,
        ..account
    }
}

/// Decides a token claim without changing anything: the release that is due,
/// or the first check that fails.
pub fn plan_token_claim(ctx: &ClaimTokens) -> (r: Result<TokenClaim, VestingError>)
    requires
        ctx.vesting_account.wf(),
    ensures
        token_claim_error(*ctx) matches Some(e) ==> r == Err::<TokenClaim, VestingError>(e),
        token_claim_error(*ctx) is None ==> r == Ok::<TokenClaim, VestingError>(token_claim_due(ctx.vesting_account, ctx.now)),
        r matches Ok(c) ==> 1 <= c.ticks && c.amount <= ctx.vesting_account.total_amount,
{
    let account = &ctx.vesting_account;
    if !ctx.user.same_as(&account.authority) {
        return Err(VestingError::Unauthorized);
    }
    if ctx.escrow_balance < account.total_amount {
        return Err(VestingError::InsufficientEscrowTokens);
    }
    if account.used_ticks >= account.vesting_ticks {
        return Err(VestingError::VestingEnded);
    }
    let elapsed = ctx.now.saturating_sub(account.last_claim);
    let tick_duration = account.vesting_end - account.vesting_start;
    if elapsed < tick_duration || ctx.now < account.vesting_start {
        return Err(VestingError::NotTimeToClaim);
    }
    let whole = elapsed / tick_duration;
    assert(whole >= 1) by (nonlinear_arith)
        requires
            whole == elapsed / tick_duration,
            elapsed >= tick_duration,
            tick_duration > 0,
    ;
    let remaining = account.vesting_ticks - account.used_ticks;
    let ticks = if whole < remaining {
        whole
    } else {
        remaining
    };
    proof {
        lemma_release_within_allocation(
            account.claimed_amount as int,
            account.total_amount as int,
            account.used_ticks as int,
            ticks as int,
            account.vesting_ticks as int,
        );
    }
    let amount = (wide_mul(account.total_amount, ticks) / (account.vesting_ticks as u128)) as u64;
    Ok(TokenClaim { ticks, amount })
}

/// A buyer's token claim. `transfer_ok` is the outcome of moving the planned
/// release (see `plan_token_claim`) from the pool's escrow to the buyer. The
/// account changes only when every check passes and the transfer went
/// through; then the claim returns the tokens released. The release never
/// takes more ticks than remain, so the account stays well formed.
pub fn claim_vesting_tokens(ctx: &mut ClaimTokens, transfer_ok: bool) -> (r: Result<u64, VestingError>)
    requires
        old(ctx).vesting_account.wf(),
    ensures
        final(ctx).vesting_account.wf(),
        token_claim_error(*old(ctx)) matches Some(e) ==> r == Err::<u64, VestingError>(e),
        token_claim_error(*old(ctx)) is None && !transfer_ok ==> r == Err::<u64, VestingError>(VestingError::TokenTransferFailed),
        token_claim_error(*old(ctx)) is None && transfer_ok ==> {
            let due = token_claim_due(old(ctx).vesting_account, old(ctx).now);
            &&& r == Ok::<u64, VestingError>(due.amount)
            &&& *final(ctx) == (ClaimTokens {
                vesting_account: account_after_claim(old(ctx).vesting_account, due, old(ctx).now),
                ..*old(ctx)
            })
        },
        r is Err ==> *final(ctx) == *old(ctx),
        ({
            let account = old(ctx).vesting_account;
            &&& old(ctx).user@ == account.authority@
            &&& old(ctx).escrow_balance >= account.total_amount
            &&& account.used_ticks < account.vesting_ticks
            &&& (old(ctx).now < account.vesting_start || elapsed_since_claim(account, old(ctx).now)
                < account.tick_duration())
        }) ==> r == Err::<u64, VestingError>(VestingError::NotTimeToClaim) && *final(ctx) == *old(ctx),
        ({
            let account = old(ctx).vesting_account;
            &&& old(ctx).user@ == account.authority@
            &&& old(ctx).escrow_balance >= account.total_amount
            &&& account.used_ticks == account.vesting_ticks
        }) ==> r == Err::<u64, VestingError>(VestingError::VestingEnded) && *final(ctx) == *old(ctx),
{
    let claim = match plan_token_claim(ctx) {
        Ok(claim) => claim,
        Err(e) => return Err(e),
    };
    if !transfer_ok {
        return Err(VestingError::TokenTransferFailed);
    }
    let now = ctx.now;
    let account = &mut ctx.vesting_account;
    proof {
        lemma_release_within_allocation(
            account.claimed_amount as int,
            account.total_amount as int,
            account.used_ticks as int,
            claim.ticks as int,
            account.vesting_ticks as int,
        );
    }
    account.claimed_amount = account.claimed_amount + claim.amount;
    account.used_ticks = account.used_ticks + claim.ticks;
    account.last_claim = now;
    Ok(claim.amount)
}

/// What the pool authority's proceeds claim reads: who asks, the pool, the
/// payment-currency balance of the pool's escrow, and the balance the escrow
/// must keep.
#[derive(Clone, Copy, Debug)]
pub struct ClaimVesting {
    pub user: Address,
    pub vesting_pool: VestingPool,
    pub pool_balance: u64,
    pub reserved_balance: u64,
}

/// The proceeds the pool authority may withdraw: the escrow balance above the
/// reserve, or nothing when the balance does not exceed it. Only the pool's
/// authority may claim.
pub fn claim_vesting_sol(ctx: &ClaimVesting) -> (r: Result<u64, VestingError>)
    ensures
        ctx.user@ != ctx.vesting_pool.authority@ ==> r == Err::<u64, VestingError>(VestingError::Unauthorized),
        ctx.user@ == ctx.vesting_pool.authority@ ==> r == Ok::<u64, VestingError>(
            if ctx.pool_balance > ctx.reserved_balance {
                (ctx.pool_balance - ctx.reserved_balance) as u64
            } else {
                0
            },
        ),
{
    if !ctx.user.same_as(&ctx.vesting_pool.authority) {
        return Err(VestingError::Unauthorized);
    }
    Ok(ctx.pool_balance.saturating_sub(ctx.reserved_balance))
}

} // verus!
