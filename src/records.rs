use vstd::prelude::*;

use crate::address::Address;
use crate::amounts::wide_mul;

verus! {

/// The sell-side record: the tokens still for sale and the schedule that every
/// buyer's account copies.
#[derive(Clone, Copy, Debug)]
pub struct VestingPool {
    /// May withdraw the proceeds.
    pub authority: Address,
    /// The token being vested.
    pub token_mint: Address,
    /// Token units allocated per 10^9 units of payment currency.
    pub price_per_sol: u64,
    /// Token units still unsold in the pool's escrow.
    pub total_amount: u64,
    /// Kept for the stored layout; releases are tracked per account.
    pub claimed_amount: u64,
    pub vesting_start: u64,
    /// `vesting_end - vesting_start` is the length of one tick.
    pub vesting_end: u64,
    /// Number of ticks over the whole vesting term.
    pub vesting_ticks: u64,
}

/// The buy-side record: one buyer's allocation against one pool and how much
/// of it has been released.
#[derive(Clone, Copy, Debug)]
pub struct VestingAccount {
    /// The buyer; only they may claim.
    pub authority: Address,
    pub token_mint: Address,
    /// Token units allocated to the buyer over all purchases.
    pub total_amount: u64,
    /// Token units already released to the buyer.
    pub claimed_amount: u64,
    pub vesting_start: u64,
    pub vesting_end: u64,
    pub vesting_ticks: u64,
    /// Ticks already released.
    pub used_ticks: u64,
    /// Time of the last claim, or of the account's creation.
    pub last_claim: u64,
}

/// A schedule has ticks of positive length, and at least one of them.
pub open spec fn valid_schedule(vesting_start: int, vesting_end: int, vesting_ticks: int) -> bool {
    vesting_start < vesting_end && 0 < vesting_ticks
}

impl VestingPool {
    /// What initialization establishes: a valid schedule.
    pub open spec fn wf(self) -> bool {
        valid_schedule(self.vesting_start as int, self.vesting_end as int, self.vesting_ticks as int)
    }
}

impl VestingAccount {
    /// The length of one tick.
    pub open spec fn tick_duration(self) -> int {
        self.vesting_end - self.vesting_start
    }

    /// The schedule is valid, no more ticks are used than exist, and what was
    /// released never runs ahead of the ticks used: with `u` of `n` ticks used,
    /// at most `u / n` of the allocation has been released. Hence
    /// `claimed_amount <= total_amount`.
    pub open spec fn wf(self) -> bool {
        &&& valid_schedule(self.vesting_start as int, self.vesting_end as int, self.vesting_ticks as int)
        &&& self.used_ticks <= self.vesting_ticks
        &&& self.claimed_amount <= self.total_amount
        &&& self.claimed_amount * self.vesting_ticks <= self.total_amount * self.used_ticks
    }

    /// Tests `wf`.
    pub fn is_well_formed(&self) -> (r: bool)
        ensures
            r == self.wf(),
    {
        let released = wide_mul(self.claimed_amount, self.vesting_ticks);
        let owed = wide_mul(self.total_amount, self.used_ticks);
        self.vesting_start < self.vesting_end && 0 < self.vesting_ticks
            && self.used_ticks <= self.vesting_ticks && self.claimed_amount <= self.total_amount
            && released <= owed
    }
}

/// The account a buyer gets on their first purchase: nothing allocated or
/// claimed yet, and the pool's schedule as it stands now.
pub open spec fn fresh_account(pool: VestingPool, buyer: Address, now: u64) -> VestingAccount {
    VestingAccount {
        authority: buyer,
        token_mint: pool.token_mint,
        total_amount: 0,
        claimed_amount: 0,
        vesting_start: pool.vesting_start,
        vesting_end: pool.vesting_end,
        vesting_ticks: pool.vesting_ticks,
        used_ticks: 0,
        last_claim: now,
    }
}

/// Creates the account of `buyer` against `pool`, copying the pool's schedule.
/// Later changes to the pool do not reach it.
pub fn create_account_from_pool(pool: &VestingPool, buyer: Address, now: u64) -> (r: VestingAccount)
    ensures
        r == fresh_account(*pool, buyer, now),
        pool.wf() ==> r.wf(),
{
    VestingAccount {
        authority: buyer,
        token_mint: pool.token_mint,
        total_amount: 0,
        claimed_amount: 0,
        vesting_start: pool.vesting_start,
        vesting_end: pool.vesting_end,
        vesting_ticks: pool.vesting_ticks,
        used_ticks: 0,
        last_claim: now,
    }
}

} // verus!
