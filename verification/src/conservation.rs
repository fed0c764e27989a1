//! A distribution never pays out more than the revenue it was given.

use vstd::prelude::*;
use vstd::arithmetic::div_mod::{lemma_fundamental_div_mod, lemma_mod_pos_bound};
use crate::distribution::{
    distribution_outcome, planned_order, share_of, shares_fit, DistributeRevenue, HolderBalance,
    TransferOrder,
};
use crate::distribution::lemma_share_within_revenue;

verus! {

/// The sum of a list of numbers.
pub open spec fn sum(values: Seq<int>) -> int
    decreases values.len(),
{
    if values.len() == 0 {
        0
    } else {
        sum(values.drop_last()) + values.last()
    }
}

/// The share that belongs to each balance of a list.
pub open spec fn shares_of(balances: Seq<int>, total_supply: int, total_revenue: int) -> Seq<int> {
    Seq::new(balances.len(), |i: int| share_of(balances[i], total_supply, total_revenue))
}

/// The balances of a holder snapshot, in its order.
pub open spec fn balances_of(holders: Seq<HolderBalance>) -> Seq<int> {
    Seq::new(holders.len(), |i: int| holders[i].balance as int)
}

/// The amounts of a list of transfers, in its order.
pub open spec fn amounts_of(orders: Seq<TransferOrder>) -> Seq<int> {
    Seq::new(orders.len(), |i: int| orders[i].amount as int)
}

/// Whether nothing is lost to rounding in every share of a list: the supply
/// divides each balance times the revenue.
pub open spec fn divides_evenly(balances: Seq<int>, total_supply: int, total_revenue: int) -> bool {
    forall|i: int|
        0 <= i < balances.len() ==> (#[trigger] balances[i] * total_revenue) % total_supply == 0
}

/// A list of non-negative numbers has a non-negative sum.
pub proof fn lemma_sum_not_negative(values: Seq<int>)
    requires
        forall|j: int| 0 <= j < values.len() ==> 0 <= values[j],
    ensures
        0 <= sum(values),
    decreases values.len(),
{
    if values.len() > 0 {
        lemma_sum_not_negative(values.drop_last());
    }
}

/// No member of a list of non-negative numbers is more than their sum.
pub proof fn lemma_member_within_sum(values: Seq<int>, i: int)
    requires
        forall|j: int| 0 <= j < values.len() ==> 0 <= values[j],
        0 <= i < values.len(),
    ensures
        0 <= values[i] <= sum(values),
    decreases values.len(),
{
    let front = values.drop_last();
    lemma_sum_not_negative(front);
    if i < front.len() {
        lemma_member_within_sum(front, i);
        assert(front[i] == values[i]);
    }
}

/// The shares of a list, each multiplied by the supply, come to no more than
/// the balances multiplied by the revenue; and to as much only where nothing
/// is lost to rounding.
proof fn lemma_shares_scaled(balances: Seq<int>, total_supply: int, total_revenue: int)
    requires
        total_supply > 0,
        total_revenue >= 0,
        forall|j: int| 0 <= j < balances.len() ==> 0 <= balances[j],
    ensures
        0 <= sum(shares_of(balances, total_supply, total_revenue)),
        0 <= sum(balances),
        total_supply * sum(shares_of(balances, total_supply, total_revenue)) <= total_revenue * sum(
            balances,
        ),
        total_supply * sum(shares_of(balances, total_supply, total_revenue)) == total_revenue * sum(
            balances,
        ) ==> divides_evenly(balances, total_supply, total_revenue),
    decreases balances.len(),
{
    let shares = shares_of(balances, total_supply, total_revenue);
    if balances.len() > 0 {
        let front = balances.drop_last();
        let last = balances.last();
        let front_shares = shares_of(front, total_supply, total_revenue);
        lemma_shares_scaled(front, total_supply, total_revenue);
        assert(shares.drop_last() =~= front_shares);
        let q = share_of(last, total_supply, total_revenue);
        assert(shares.last() == q);
        let product = last * total_revenue;
        assert(product >= 0) by (nonlinear_arith)
            requires
                product == last * total_revenue,
                last >= 0,
                total_revenue >= 0,
        ;
        lemma_fundamental_div_mod(product, total_supply);
        lemma_mod_pos_bound(product, total_supply);
        assert(q >= 0) by (nonlinear_arith)
            requires
                product == total_supply * q + product % total_supply,
                product % total_supply < total_supply,
                product >= 0,
                total_supply > 0,
        ;
        assert(total_supply * (sum(front_shares) + q) == total_supply * sum(front_shares)
            + total_supply * q) by (nonlinear_arith);
        assert(total_revenue * (sum(front) + last) == total_revenue * sum(front) + last
            * total_revenue) by (nonlinear_arith);
        if total_supply * sum(shares) == total_revenue * sum(balances) {
            assert(product % total_supply == 0);
            assert(divides_evenly(front, total_supply, total_revenue));
            assert forall|i: int| 0 <= i < balances.len() implies (#[trigger] balances[i]
                * total_revenue) % total_supply == 0 by {
                if i < front.len() {
                    assert(balances[i] == front[i]);
                }
            }
        }
    }
}

/// Conservation: for a positive supply and balances that together are no
/// more than the supply, the shares together are no more than the revenue,
/// and they come to the whole revenue only where the supply divides every
/// balance times the revenue.
pub proof fn lemma_shares_conserve_revenue(
    balances: Seq<int>,
    total_supply: int,
    total_revenue: int,
)
    requires
        total_supply > 0,
        total_revenue >= 0,
        forall|j: int| 0 <= j < balances.len() ==> 0 <= balances[j],
        sum(balances) <= total_supply,
    ensures
        0 <= sum(shares_of(balances, total_supply, total_revenue)) <= total_revenue,
        sum(shares_of(balances, total_supply, total_revenue)) == total_revenue ==> divides_evenly(
            balances,
            total_supply,
            total_revenue,
        ),
{
    let paid = sum(shares_of(balances, total_supply, total_revenue));
    let held = sum(balances);
    lemma_shares_scaled(balances, total_supply, total_revenue);
    assert(total_revenue * held <= total_revenue * total_supply) by (nonlinear_arith)
        requires
            held <= total_supply,
            total_revenue >= 0,
    ;
    assert(paid <= total_revenue) by (nonlinear_arith)
        requires
            total_supply * paid <= total_revenue * total_supply,
            total_supply > 0,
    ;
    if paid == total_revenue {
        assert(total_supply * paid == total_revenue * total_supply) by (nonlinear_arith)
            requires
                paid == total_revenue,
        ;
    }
}

/// Conservation, of a distribution: where the caller is the owner, revenue
/// and supply are positive and the listed holders together hold no more than
/// the supply, the distribution is not refused, its transfers together move
/// no more than the revenue, and they move all of it only where the supply
/// divides every balance times the revenue. What is not moved stays in the
/// account that the shares are paid from.
pub proof fn lemma_distribution_conserves_revenue(ctx: DistributeRevenue, total_revenue: u64)
    requires
        ctx.owner == ctx.lot.owner,
        total_revenue > 0,
        ctx.total_supply > 0,
        sum(balances_of(ctx.holders@)) <= ctx.total_supply,
    ensures
        distribution_outcome(ctx, total_revenue) is Ok,
        amounts_of(distribution_outcome(ctx, total_revenue)->Ok_0) == shares_of(
            balances_of(ctx.holders@),
            ctx.total_supply as int,
            total_revenue as int,
        ),
        0 <= sum(amounts_of(distribution_outcome(ctx, total_revenue)->Ok_0)) <= total_revenue,
        sum(amounts_of(distribution_outcome(ctx, total_revenue)->Ok_0)) == total_revenue
            ==> divides_evenly(
            balances_of(ctx.holders@),
            ctx.total_supply as int,
            total_revenue as int,
        ),
{
    let balances = balances_of(ctx.holders@);
    let supply = ctx.total_supply as int;
    let revenue = total_revenue as int;
    assert forall|i: int| 0 <= i < ctx.holders@.len() implies 0 <= share_of(
        #[trigger] ctx.holders@[i].balance as int,
        supply,
        revenue,
    ) <= revenue by {
        assert(balances[i] == ctx.holders@[i].balance);
        lemma_member_within_sum(balances, i);
        lemma_share_within_revenue(ctx.holders@[i].balance as int, supply, revenue);
    }
    assert(shares_fit(ctx, total_revenue));
    let orders = distribution_outcome(ctx, total_revenue)->Ok_0;
    assert forall|i: int| 0 <= i < orders.len() implies amounts_of(orders)[i] == shares_of(
        balances,
        supply,
        revenue,
    )[i] by {
        assert(orders[i] == planned_order(ctx, total_revenue, i));
        assert(balances[i] == ctx.holders@[i].balance);
    }
    assert(amounts_of(orders) =~= shares_of(balances, supply, revenue));
    lemma_shares_conserve_revenue(balances, supply, revenue);
}

} // verus!
