//! The distribution engine: who may distribute, how much each holder is
//! owed, and the transfers that pay it out.

use vstd::prelude::*;
use crate::account::AccountId;
use crate::error::AgricultureError;
use crate::lot::LotAccount;

verus! {

/// One entry of a holder snapshot: a token account and what it holds.
#[derive(Clone, Copy, Debug, PartialEq, Eq)]
pub struct HolderBalance {
    pub account: AccountId,
    pub balance: u64,
}

/// One transfer for the ledger to make.
#[derive(Clone, Copy, Debug, PartialEq, Eq)]
pub struct TransferOrder {
    pub from: AccountId,
    pub to: AccountId,
    pub amount: u64,
}

/// The notification that the revenue of a lot was distributed.
#[derive(Clone, Copy, Debug, PartialEq, Eq)]
pub struct RevenueDistributed {
    pub lot: AccountId,
    pub total_revenue: u64,
    pub timestamp: i64,
}

/// The accounts that a distribution works on.
#[derive(Clone, Debug, PartialEq, Eq)]
pub struct DistributeRevenue {
    /// The address at which the lot is stored.
    pub lot_key: AccountId,
    /// The lot whose revenue is distributed.
    pub lot: LotAccount,
    /// The caller, who must be the lot's owner.
    pub owner: AccountId,
    /// The token account that the shares are paid from. What rounding leaves
    /// over stays here.
    pub farmer_token_account: AccountId,
    /// The token's total supply, read once for the whole distribution.
    pub total_supply: u64,
    /// The holders to pay, in the order in which they are paid. Whether every
    /// holder is listed is up to the caller.
    pub holders: Vec<HolderBalance>,
}

/// The share of a holder: its part of the revenue in proportion to its part
/// of the supply, rounded down.
pub open spec fn share_of(balance: int, total_supply: int, total_revenue: int) -> int
    recommends
        total_supply > 0,
{
    (balance * total_revenue) / total_supply
}

/// The transfer that pays the holder at position `i` of the snapshot.
pub open spec fn planned_order(ctx: DistributeRevenue, total_revenue: u64, i: int) -> TransferOrder
    recommends
        0 <= i < ctx.holders@.len(),
{
    TransferOrder {
        from: ctx.farmer_token_account,
        to: ctx.holders@[i].account,
        amount: share_of(
            ctx.holders@[i].balance as int,
            ctx.total_supply as int,
            total_revenue as int,
        ) as u64,
    }
}

/// Whether the share of every listed holder fits in 64 bits.
pub open spec fn shares_fit(ctx: DistributeRevenue, total_revenue: u64) -> bool {
    forall|i: int|
        0 <= i < ctx.holders@.len() ==> share_of(
            #[trigger] ctx.holders@[i].balance as int,
            ctx.total_supply as int,
            total_revenue as int,
        ) <= u64::MAX
}

/// What a distribution with these arguments comes to: the reason for which
/// it is refused, or one transfer for each listed holder, in the order of the
/// snapshot. A holder whose share is zero is not left out. The tests are made
/// in the order in which they are written here.
pub open spec fn distribution_outcome(ctx: DistributeRevenue, total_revenue: u64) -> Result<
    Seq<TransferOrder>,
    AgricultureError,
> {
    if ctx.owner != ctx.lot.owner {
        Err(AgricultureError::InvalidOwner)
    } else if total_revenue == 0 {
        Err(AgricultureError::InvalidRevenueAmount)
    } else if ctx.total_supply == 0 {
        Err(AgricultureError::ZeroSupply)
    } else if !shares_fit(ctx, total_revenue) {
        Err(AgricultureError::ShareOverflow)
    } else {
        Ok(Seq::new(ctx.holders@.len(), |i: int| planned_order(ctx, total_revenue, i)))
    }
}

/// Only the owner distributes: for any other caller the distribution is
/// refused as unauthorized, whatever else is wrong, and no transfer is
/// planned.
pub proof fn lemma_stranger_is_refused(ctx: DistributeRevenue, total_revenue: u64)
    requires
        ctx.owner != ctx.lot.owner,
    ensures
        distribution_outcome(ctx, total_revenue) == Err::<Seq<TransferOrder>, AgricultureError>(
            AgricultureError::InvalidOwner,
        ),
{
}

/// With a supply of zero no share is defined: the distribution is refused,
/// and where the owner calls with a positive revenue, for that reason.
pub proof fn lemma_zero_supply_is_refused(ctx: DistributeRevenue, total_revenue: u64)
    requires
        ctx.total_supply == 0,
    ensures
        distribution_outcome(ctx, total_revenue) is Err,
        ctx.owner == ctx.lot.owner && total_revenue > 0 ==> distribution_outcome(
            ctx,
            total_revenue,
        ) == Err::<Seq<TransferOrder>, AgricultureError>(AgricultureError::ZeroSupply),
{
}

/// The outcome of a distribution is decided by the lot's owner, the caller,
/// the paying account, the supply, the revenue and the snapshot in its
/// order: two distributions that agree in these come to the same refusal or
/// to the same transfers.
pub proof fn lemma_distribution_is_determined(
    a: DistributeRevenue,
    b: DistributeRevenue,
    total_revenue: u64,
)
    requires
        a.lot.owner == b.lot.owner,
        a.owner == b.owner,
        a.farmer_token_account == b.farmer_token_account,
        a.total_supply == b.total_supply,
        a.holders@ == b.holders@,
    ensures
        distribution_outcome(a, total_revenue) == distribution_outcome(b, total_revenue),
{
    assert(shares_fit(a, total_revenue) == shares_fit(b, total_revenue));
    assert(Seq::new(a.holders@.len(), |i: int| planned_order(a, total_revenue, i)) =~= Seq::new(
        b.holders@.len(),
        |i: int| planned_order(b, total_revenue, i),
    ));
}

/// A holder with no more than the whole supply is owed no more than the
/// whole revenue.
pub proof fn lemma_share_within_revenue(balance: int, total_supply: int, total_revenue: int)
    requires
        0 <= balance <= total_supply,
        0 < total_supply,
        0 <= total_revenue,
    ensures
        0 <= share_of(balance, total_supply, total_revenue) <= total_revenue,
{
    assert(balance * total_revenue <= total_supply * total_revenue) by (nonlinear_arith)
        requires
            0 <= balance <= total_supply,
            0 <= total_revenue,
    ;
    assert(0 <= (balance * total_revenue) / total_supply <= total_revenue) by (nonlinear_arith)
        requires
            0 <= balance * total_revenue <= total_supply * total_revenue,
            0 < total_supply,
    ;
}

/// Computes the share of one holder.
///
/// There is none when the supply is zero, or when the share does not fit in
/// 64 bits, which takes a holder with more than the whole supply.
pub fn calculate_share(holder_amount: u64, total_supply: u64, total_revenue: u64) -> (share: Option<
    u64,
>)
    ensures
        match share {
            Some(s) => total_supply > 0 && s == share_of(
                holder_amount as int,
                total_supply as int,
                total_revenue as int,
            ),
            None => total_supply == 0 || share_of(
                holder_amount as int,
                total_supply as int,
                total_revenue as int,
            ) > u64::MAX,
        },
        total_supply > 0 && holder_amount <= total_supply ==> share is Some,
{
    if total_supply == 0 {
        return None;
    }
    assert(holder_amount * total_revenue <= 0xffff_ffff_ffff_ffff * 0xffff_ffff_ffff_ffff)
        by (nonlinear_arith)
        requires
            0 <= holder_amount <= 0xffff_ffff_ffff_ffff,
            0 <= total_revenue <= 0xffff_ffff_ffff_ffff,
    ;
    let product: u128 = (holder_amount as u128) * (total_revenue as u128);
    let quotient: u128 = product / (total_supply as u128);
    proof {
        if holder_amount <= total_supply {
            lemma_share_within_revenue(
                holder_amount as int,
                total_supply as int,
                total_revenue as int,
            );
        }
    }
    if quotient > u64::MAX as u128 {
        None
    } else {
        Some(quotient as u64)
    }
}

/// Opens a distribution of `total_revenue` among the holders listed in `ctx`.
///
/// Nothing is transferred here. Every share is computed from the one supply
/// in `ctx`, and the transfers are handed out afterwards, one at a time, by
/// [`Distribution::advance`].
pub fn distribute_revenue(ctx: &DistributeRevenue, total_revenue: u64) -> (result: Result<
    Distribution,
    AgricultureError,
>)
    ensures
        match result {
            Ok(d) => {
                &&& distribution_outcome(*ctx, total_revenue) == Ok::<
                    Seq<TransferOrder>,
                    AgricultureError,
                >(d.orders@)
                &&& d.lot == ctx.lot_key
                &&& d.total_revenue == total_revenue
                &&& d.settled == 0
                &&& d.phase == DistributionPhase::Ready
                &&& d.wf()
            },
            Err(e) => distribution_outcome(*ctx, total_revenue) == Err::<
                Seq<TransferOrder>,
                AgricultureError,
            >(e),
        },
{
    if ctx.owner != ctx.lot.owner {
        return Err(AgricultureError::InvalidOwner);
    }
    if total_revenue == 0 {
        return Err(AgricultureError::InvalidRevenueAmount);
    }
    let total_supply = ctx.total_supply;
    if total_supply == 0 {
        return Err(AgricultureError::ZeroSupply);
    }
    let mut orders: Vec<TransferOrder> = Vec::new();
    let mut i: usize = 0;
    while i < ctx.holders.len()
        invariant
            i <= ctx.holders@.len(),
            ctx.owner == ctx.lot.owner,
            total_revenue > 0,
            total_supply == ctx.total_supply,
            total_supply > 0,
            orders@.len() == i,
            forall|j: int| 0 <= j < i ==> orders@[j] == planned_order(*ctx, total_revenue, j),
            forall|j: int|
                0 <= j < i ==> share_of(
                    #[trigger] ctx.holders@[j].balance as int,
                    ctx.total_supply as int,
                    total_revenue as int,
                ) <= u64::MAX,
        decreases ctx.holders@.len() - i,
    {
        let holder = ctx.holders[i];
        match calculate_share(holder.balance, total_supply, total_revenue) {
            Some(amount) => {
                orders.push(
                    TransferOrder { from: ctx.farmer_token_account, to: holder.account, amount },
                );
            },
            None => {
                assert(share_of(
                    ctx.holders@[i as int].balance as int,
                    ctx.total_supply as int,
                    total_revenue as int,
                ) > u64::MAX);
                assert(!shares_fit(*ctx, total_revenue));
                return Err(AgricultureError::ShareOverflow);
            },
        }
        i += 1;
    }
    assert(orders@ =~= Seq::new(
        ctx.holders@.len(),
        |j: int| planned_order(*ctx, total_revenue, j),
    ));
    Ok(
        Distribution {
            lot: ctx.lot_key,
            total_revenue,
            orders,
            settled: 0,
            phase: DistributionPhase::Ready,
        },
    )
}

/// How far a distribution has come.
#[derive(Clone, Copy, Debug, PartialEq, Eq, Structural)]
pub enum DistributionPhase {
    /// Opened; no transfer has been handed out.
    Ready,
    /// A transfer has been handed out and its result is awaited.
    Paying,
    /// Every transfer went through and the notification has been handed out.
    Completed,
    /// The ledger refused a transfer. The transfers before it stand, those
    /// after it were never made.
    Failed,
}

/// What the caller reports to a distribution.
#[derive(Clone, Copy, Debug, PartialEq, Eq, Structural)]
pub enum DistributionEvent {
    /// The caller is ready to make transfers.
    Begin,
    /// The ledger made the transfer that was handed out last.
    TransferSettled,
    /// The ledger refused the transfer that was handed out last.
    TransferRefused,
}

/// What a distribution asks the caller to do next.
#[derive(Clone, Copy, Debug, PartialEq, Eq)]
pub enum DistributionAction {
    /// Make this transfer, then report whether the ledger made it.
    Transfer(TransferOrder),
    /// Publish this notification; the distribution is complete.
    Notify(RevenueDistributed),
    /// Give up with this error; the distribution has failed.
    Abort(AgricultureError),
    /// The event does not belong to the phase: there is nothing to do.
    Nothing,
}

/// A distribution under way: the transfers owed, and how many of them the
/// ledger has made.
#[derive(Clone, Debug, PartialEq, Eq)]
pub struct Distribution {
    /// The address of the lot whose revenue is distributed.
    pub lot: AccountId,
    /// The revenue that is distributed.
    pub total_revenue: u64,
    /// One transfer for each holder, in the order of the snapshot.
    pub orders: Vec<TransferOrder>,
    /// How many of `orders`, from the front, the ledger has made.
    pub settled: usize,
    pub phase: DistributionPhase,
}

impl Distribution {
    /// What holds of a distribution that was opened by [`distribute_revenue`]
    /// and driven by [`Distribution::advance`]: the transfers are settled from
    /// the front, none is settled before the start, one at least is still
    /// owed while paying and after a failure, and all are settled on
    /// completion.
    pub open spec fn wf(&self) -> bool {
        &&& self.settled <= self.orders@.len()
        &&& self.phase == DistributionPhase::Ready ==> self.settled == 0
        &&& self.phase == DistributionPhase::Paying ==> self.settled < self.orders@.len()
        &&& self.phase == DistributionPhase::Failed ==> self.settled < self.orders@.len()
        &&& self.phase == DistributionPhase::Completed ==> self.settled == self.orders@.len()
    }

    /// Whether `event` is one that the distribution moves on: the start
    /// while it is ready, or a settled transfer while it is paying.
    pub open spec fn moves_on(&self, event: DistributionEvent) -> bool {
        ||| self.phase == DistributionPhase::Ready && event == DistributionEvent::Begin
        ||| self.phase == DistributionPhase::Paying && event == DistributionEvent::TransferSettled
    }

    /// The number of settled transfers once `event` is taken in.
    pub open spec fn settled_after(&self, event: DistributionEvent) -> usize {
        if self.phase == DistributionPhase::Paying && event == DistributionEvent::TransferSettled
            && self.settled < self.orders@.len() {
            (self.settled + 1) as usize
        } else {
            self.settled
        }
    }

    /// The phase once `event` is taken in.
    pub open spec fn phase_after(&self, event: DistributionEvent) -> DistributionPhase {
        if self.moves_on(event) {
            if self.settled_after(event) < self.orders@.len() {
                DistributionPhase::Paying
            } else {
                DistributionPhase::Completed
            }
        } else if self.phase == DistributionPhase::Paying && event
            == DistributionEvent::TransferRefused {
            DistributionPhase::Failed
        } else {
            self.phase
        }
    }

    /// What the caller is asked to do once `event` is taken in at the time
    /// `now`: the next transfer in the order of the snapshot; after the last,
    /// the notification, stamped `now`; after a refusal, to give up.
    pub open spec fn action_after(&self, event: DistributionEvent, now: i64) -> DistributionAction {
        if self.moves_on(event) {
            if self.settled_after(event) < self.orders@.len() {
                DistributionAction::Transfer(self.orders@[self.settled_after(event) as int])
            } else {
                DistributionAction::Notify(
                    RevenueDistributed {
                        lot: self.lot,
                        total_revenue: self.total_revenue,
                        timestamp: now,
                    },
                )
            }
        } else if self.phase == DistributionPhase::Paying && event
            == DistributionEvent::TransferRefused {
            DistributionAction::Abort(AgricultureError::TransferFailed)
        } else {
            DistributionAction::Nothing
        }
    }

    /// The notification is the last thing asked for: it comes only when
    /// every transfer has been settled, and a distribution that is complete
    /// or has failed asks for nothing more.
    pub proof fn lemma_notifies_once_after_all_transfers(
        &self,
        event: DistributionEvent,
        now: i64,
    )
        requires
            self.wf(),
        ensures
            self.action_after(event, now) is Notify ==> {
                &&& self.settled_after(event) == self.orders@.len()
                &&& self.phase_after(event) == DistributionPhase::Completed
            },
            self.phase == DistributionPhase::Completed || self.phase == DistributionPhase::Failed
                ==> {
                &&& self.action_after(event, now) == DistributionAction::Nothing
                &&& self.phase_after(event) == self.phase
                &&& self.settled_after(event) == self.settled
            },
            self.action_after(event, now) is Transfer ==> {
                &&& self.settled_after(event) < self.orders@.len()
                &&& self.action_after(event, now)->Transfer_0
                    == self.orders@[self.settled_after(event) as int]
            },
    {
    }

    /// Takes in `event` and says what to do next.
    ///
    /// The lot, the revenue and the transfers owed never change; only the
    /// count of settled transfers and the phase move.
    pub fn advance(&mut self, event: DistributionEvent, now: i64) -> (action: DistributionAction)
        ensures
            action == old(self).action_after(event, now),
            final(self).phase == old(self).phase_after(event),
            final(self).settled == old(self).settled_after(event),
            final(self).orders == old(self).orders,
            final(self).lot == old(self).lot,
            final(self).total_revenue == old(self).total_revenue,
            old(self).wf() ==> final(self).wf(),
    {
        match (self.phase, event) {
            (DistributionPhase::Ready, DistributionEvent::Begin) => {},
            (DistributionPhase::Paying, DistributionEvent::TransferSettled) => {
                if self.settled < self.orders.len() {
                    self.settled = self.settled + 1;
                }
            },
            (DistributionPhase::Paying, DistributionEvent::TransferRefused) => {
                self.phase = DistributionPhase::Failed;
                return DistributionAction::Abort(AgricultureError::TransferFailed);
            },
            _ => {
                return DistributionAction::Nothing;
            },
        }
        if self.settled < self.orders.len() {
            self.phase = DistributionPhase::Paying;
            DistributionAction::Transfer(self.orders[self.settled])
        } else {
            self.phase = DistributionPhase::Completed;
            DistributionAction::Notify(
                RevenueDistributed {
                    lot: self.lot,
                    total_revenue: self.total_revenue,
                    timestamp: now,
                },
            )
        }
    }

    /// The amounts of the transfers made so far, in the order in which they
    /// were made.
    pub open spec fn receipts_of(&self) -> Seq<u64> {
        Seq::new(
            if self.settled <= self.orders@.len() {
                self.settled as nat
            } else {
                self.orders@.len()
            },
            |i: int| self.orders@[i].amount,
        )
    }

    /// Lists the amounts of the transfers made so far. After a failure this
    /// is what was paid before the ledger refused.
    pub fn receipts(&self) -> (amounts: Vec<u64>)
        ensures
            amounts@ == self.receipts_of(),
    {
        let mut amounts: Vec<u64> = Vec::new();
        let mut i: usize = 0;
        while i < self.settled && i < self.orders.len()
            invariant
                i <= self.settled,
                i <= self.orders@.len(),
                amounts@.len() == i,
                forall|j: int| 0 <= j < i ==> amounts@[j] == self.orders@[j].amount,
            decreases self.orders@.len() - i,
        {
            amounts.push(self.orders[i].amount);
            i += 1;
        }
        assert(amounts@ =~= self.receipts_of());
        amounts
    }
}

} // verus!
