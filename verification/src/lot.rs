//! Lots and their registration.

use vstd::prelude::*;
use vstd::utf8::encode_utf8;
use crate::account::AccountId;
use crate::error::AgricultureError;

verus! {

/// The most bytes that the encoded name of a lot may take.
pub const MAX_NAME_BYTES: usize = 40;

/// The number of bytes that `name` takes once encoded as UTF-8.
pub open spec fn name_bytes(name: Seq<char>) -> nat {
    encode_utf8(name).len()
}

/// A registered lot. Once stored it is never changed or removed.
#[derive(Clone, Debug, PartialEq, Eq)]
pub struct LotAccount {
    /// The account that registered the lot and may distribute its revenue.
    pub owner: AccountId,
    /// A label for people.
    pub lot_name: String,
    /// The expected yield; advisory only.
    pub yield_estimate: u64,
    /// When the harvest is due, in seconds since the epoch.
    pub harvest_time: i64,
    /// The token whose holders share in the lot's revenue.
    pub token_mint: AccountId,
}

impl LotAccount {
    /// The bytes reserved for a stored lot: a tag, the owner, the name, the
    /// two numbers and the mint.
    pub const MAX_SIZE: usize = 8 + 32 + 40 + 8 + 8 + 32;

    /// What every stored lot satisfies: a positive yield estimate and a name
    /// that fits the space reserved for it.
    pub open spec fn wf(&self) -> bool {
        &&& self.yield_estimate > 0
        &&& name_bytes(self.lot_name@) <= MAX_NAME_BYTES
    }
}

/// The notification that a lot was registered.
#[derive(Clone, Debug, PartialEq, Eq)]
pub struct LotInitialized {
    pub lot_name: String,
    pub owner: AccountId,
    pub yield_estimate: u64,
    pub harvest_time: i64,
}

/// The accounts that a registration works on.
#[derive(Clone, Debug, PartialEq, Eq)]
pub struct InitializeLot {
    /// The record stored at the address derived from `farmer`; `None` while
    /// that address is vacant.
    pub lot: Option<LotAccount>,
    /// The account that registers the lot and becomes its owner.
    pub farmer: AccountId,
    /// The token whose holders will share in the lot's revenue.
    pub token_mint: AccountId,
}

/// What a registration with these arguments comes to: the reason for which it
/// is refused, or the lot that it stores. The tests are made in the order in
/// which they are written here, so an input with several faults is refused
/// for the first of them.
pub open spec fn registration_outcome(
    ctx: InitializeLot,
    lot_name: Seq<char>,
    yield_estimate: u64,
    harvest_time: i64,
    now: i64,
) -> Result<(), AgricultureError> {
    if yield_estimate == 0 {
        Err(AgricultureError::InsufficientYield)
    } else if harvest_time <= now {
        Err(AgricultureError::InvalidHarvestTime)
    } else if ctx.lot is Some {
        Err(AgricultureError::LotAlreadyInitialized)
    } else if name_bytes(lot_name) > MAX_NAME_BYTES {
        Err(AgricultureError::LotNameTooLong)
    } else {
        Ok(())
    }
}

/// Registers a lot for `ctx.farmer` at the time `now`.
///
/// On success the lot is stored in `ctx.lot` and the notification to publish
/// is returned. On refusal nothing is stored.
pub fn initialize_lot(
    ctx: &mut InitializeLot,
    lot_name: String,
    yield_estimate: u64,
    harvest_time: i64,
    now: i64,
) -> (result: Result<LotInitialized, AgricultureError>)
    ensures
        final(ctx).farmer == old(ctx).farmer,
        final(ctx).token_mint == old(ctx).token_mint,
        match result {
            Ok(event) => {
                &&& registration_outcome(*old(ctx), lot_name@, yield_estimate, harvest_time, now)
                    is Ok
                &&& event.lot_name@ == lot_name@
                &&& event.owner == old(ctx).farmer
                &&& event.yield_estimate == yield_estimate
                &&& event.harvest_time == harvest_time
                &&& final(ctx).lot is Some
                &&& final(ctx).lot->0.wf()
                &&& final(ctx).lot->0.owner == old(ctx).farmer
                &&& final(ctx).lot->0.lot_name@ == lot_name@
                &&& final(ctx).lot->0.yield_estimate == yield_estimate
                &&& final(ctx).lot->0.harvest_time == harvest_time
                &&& final(ctx).lot->0.token_mint == old(ctx).token_mint
            },
            Err(e) => {
                &&& registration_outcome(*old(ctx), lot_name@, yield_estimate, harvest_time, now)
                    == Err::<(), AgricultureError>(e)
                &&& final(ctx).lot == old(ctx).lot
            },
        },
{
    if yield_estimate == 0 {
        return Err(AgricultureError::InsufficientYield);
    }
    if harvest_time <= now {
        return Err(AgricultureError::InvalidHarvestTime);
    }
    if ctx.lot.is_some() {
        return Err(AgricultureError::LotAlreadyInitialized);
    }
    if lot_name.as_str().as_bytes().len() > MAX_NAME_BYTES {
        return Err(AgricultureError::LotNameTooLong);
    }
    let stored_name = lot_name.clone();
    ctx.lot = Some(
        LotAccount {
            owner: ctx.farmer,
            lot_name: stored_name,
            yield_estimate,
            harvest_time,
            token_mint: ctx.token_mint,
        },
    );
    Ok(LotInitialized { lot_name, owner: ctx.farmer, yield_estimate, harvest_time })
}

/// A registration with a zero yield estimate is refused for that reason,
/// whatever the other arguments are.
pub proof fn lemma_zero_yield_is_refused(
    ctx: InitializeLot,
    lot_name: Seq<char>,
    harvest_time: i64,
    now: i64,
)
    ensures
        registration_outcome(ctx, lot_name, 0, harvest_time, now) == Err::<(), AgricultureError>(
            AgricultureError::InsufficientYield,
        ),
{
}

/// A yield estimate of one is enough: with a harvest time after `now`, a
/// vacant address and a name that fits, the registration goes through.
pub proof fn lemma_unit_yield_is_accepted(
    ctx: InitializeLot,
    lot_name: Seq<char>,
    harvest_time: i64,
    now: i64,
)
    requires
        harvest_time > now,
        ctx.lot is None,
        name_bytes(lot_name) <= MAX_NAME_BYTES,
    ensures
        registration_outcome(ctx, lot_name, 1, harvest_time, now) is Ok,
{
}

/// A registration whose harvest time is not after `now` is refused for that
/// reason, whatever `now` is, provided that the yield estimate is positive.
pub proof fn lemma_past_harvest_is_refused(
    ctx: InitializeLot,
    lot_name: Seq<char>,
    yield_estimate: u64,
    harvest_time: i64,
    now: i64,
)
    requires
        yield_estimate > 0,
        harvest_time <= now,
    ensures
        registration_outcome(ctx, lot_name, yield_estimate, harvest_time, now) == Err::<
            (),
            AgricultureError,
        >(AgricultureError::InvalidHarvestTime),
{
}

} // verus!
