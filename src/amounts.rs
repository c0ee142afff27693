use vstd::prelude::*;

use crate::error::VestingError;
use vstd::arithmetic::div_mod::lemma_fundamental_div_mod;

verus! {

/// Payment-currency base units in one whole unit: prices are quoted per this many.
pub const LAMPORTS_PER_SOL: u64 = 1_000_000_000;

/// Tokens bought by `amount_paid` base units at `price_per_sol` tokens per whole
/// unit, rounded down.
pub open spec fn allocation_of(amount_paid: int, price_per_sol: int) -> int {
    amount_paid * price_per_sol / (LAMPORTS_PER_SOL as int)
}

/// The product of two 64-bit values, computed without overflow.
pub fn wide_mul(a: u64, b: u64) -> (r: u128)
    ensures
        r == a * b,
{
    proof {
        assert(a * b <= u64::MAX * u64::MAX) by (nonlinear_arith)
            requires
                a <= u64::MAX,
                b <= u64::MAX,
        ;
    }
    (a as u128) * (b as u128)
}

/// The tokens that `amount_paid` buys. The product is taken in 64 bits, as the
/// ledger stores it, and fails when it does not fit there.
pub fn allocation(amount_paid: u64, price_per_sol: u64) -> (r: Result<u64, VestingError>)
    ensures
        amount_paid * price_per_sol > u64::MAX ==> r == Err::<u64, VestingError>(VestingError::ArithmeticOverflow),
        amount_paid * price_per_sol <= u64::MAX ==> r == Ok::<u64, VestingError>(allocation_of(amount_paid as int, price_per_sol as int) as u64),
{
    match amount_paid.checked_mul(price_per_sol) {
        None => Err(VestingError::ArithmeticOverflow),
        Some(product) => Ok(product / LAMPORTS_PER_SOL),
    }
}

/// Tokens released for `ticks` of `vesting_ticks` ticks of an allocation of
/// `total_amount`, rounded down.
pub open spec fn release_of(total_amount: int, ticks: int, vesting_ticks: int) -> int {
    total_amount * ticks / vesting_ticks
}

/// Releasing `ticks` more ticks, while no more ticks are used than exist,
/// keeps the tokens released within the ticks' share of the allocation, and so
/// within the allocation.
pub proof fn lemma_release_within_allocation(
    claimed: int,
    total_amount: int,
    used_ticks: int,
    ticks: int,
    vesting_ticks: int,
)
    requires
        0 <= claimed,
        0 <= total_amount,
        0 <= used_ticks,
        0 <= ticks,
        0 < vesting_ticks,
        used_ticks + ticks <= vesting_ticks,
        claimed * vesting_ticks <= total_amount * used_ticks,
    ensures
        0 <= release_of(total_amount, ticks, vesting_ticks) <= total_amount,
        (claimed + release_of(total_amount, ticks, vesting_ticks)) * vesting_ticks
            <= total_amount * (used_ticks + ticks),
        claimed + release_of(total_amount, ticks, vesting_ticks) <= total_amount,
{
    let product = total_amount * ticks;
    let released = product / vesting_ticks;
    lemma_fundamental_div_mod(product, vesting_ticks);
    assert(0 <= product) by (nonlinear_arith)
        requires
            product == total_amount * ticks,
            0 <= total_amount,
            0 <= ticks,
    ;
    assert(0 <= released);
    assert(released * vesting_ticks <= product) by (nonlinear_arith)
        requires
            product == vesting_ticks * released + product % vesting_ticks,
            0 <= product % vesting_ticks,
    ;
    assert((claimed + released) * vesting_ticks <= total_amount * (used_ticks + ticks))
        by (nonlinear_arith)
        requires
            claimed * vesting_ticks <= total_amount * used_ticks,
            released * vesting_ticks <= total_amount * ticks,
    ;
    assert(total_amount * (used_ticks + ticks) <= total_amount * vesting_ticks) by (nonlinear_arith)
        requires
            0 <= total_amount,
            used_ticks + ticks <= vesting_ticks,
    ;
    assert(claimed + released <= total_amount) by (nonlinear_arith)
        requires
            (claimed + released) * vesting_ticks <= total_amount * vesting_ticks,
            0 < vesting_ticks,
    ;
}

} // verus!
