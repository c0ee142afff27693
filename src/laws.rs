use vstd::prelude::*;

use crate::amounts::allocation_of;
use crate::purchase::pool_debited;
use crate::records::VestingPool;

verus! {

/// The tokens bought by a run of payments at `price_per_sol`.
pub open spec fn total_bought(paid: Seq<u64>, price_per_sol: int) -> int
    decreases paid.len(),
{
    if paid.len() == 0 {
        0
    } else {
        total_bought(paid.drop_last(), price_per_sol) + allocation_of(paid.last() as int, price_per_sol)
    }
}

/// No token is created or lost by purchases: after a run of successful
/// purchases against a pool, what they allocated plus what the pool has left
/// is what the pool started with (for a new pool, the deposit `initialize` put
/// in its `total_amount`). `pools` holds the pool before the first purchase and
/// after each one; purchase `i` paid `paid[i]` and took what that buys from the
/// pool, as `purchase_vesting` states of every successful purchase.
pub proof fn lemma_purchases_conserve_supply(pools: Seq<VestingPool>, paid: Seq<u64>)
    requires
        pools.len() == paid.len() + 1,
        forall|i: int|
            0 <= i < paid.len() ==> #[trigger] pool_debited(
                pools[i],
                pools[i + 1],
                allocation_of(paid[i] as int, pools[i].price_per_sol as int),
            ),
    ensures
        total_bought(paid, pools[0].price_per_sol as int) + pools.last().total_amount
            == pools[0].total_amount,
        pools.last().price_per_sol == pools[0].price_per_sol,
    decreases paid.len(),
{
    if paid.len() > 0 {
        let n = paid.len() - 1;
        let earlier = pools.drop_last();
        assert forall|i: int| 0 <= i < paid.drop_last().len() implies #[trigger] pool_debited(
            earlier[i],
            earlier[i + 1],
            allocation_of(paid.drop_last()[i] as int, earlier[i].price_per_sol as int),
        ) by {
            assert(pool_debited(
                pools[i],
                pools[i + 1],
                allocation_of(paid[i] as int, pools[i].price_per_sol as int),
            ));
        }
        lemma_purchases_conserve_supply(earlier, paid.drop_last());
        assert(pool_debited(
            pools[n],
            pools[n + 1],
            allocation_of(paid[n] as int, pools[n].price_per_sol as int),
        ));
    }
}

} // verus!
