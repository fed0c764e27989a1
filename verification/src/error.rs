//! The reasons for which an operation is refused.

use vstd::prelude::*;

verus! {

/// Why a registration or a distribution did not go through. Every error ends
/// the operation it arose in; nothing is retried.
#[derive(Clone, Copy, Debug, PartialEq, Eq, Structural)]
pub enum AgricultureError {
    /// The yield estimate of a new lot was zero.
    InsufficientYield,
    /// The harvest time of a new lot was not after the current time.
    InvalidHarvestTime,
    /// The revenue to distribute was zero.
    InvalidRevenueAmount,
    /// The caller is not the owner of the lot.
    InvalidOwner,
    /// A lot is already stored at the address derived from the owner.
    LotAlreadyInitialized,
    /// The lot's name takes more bytes than a lot record reserves for it.
    LotNameTooLong,
    /// The token has no supply, so no proportion can be formed.
    ZeroSupply,
    /// A holder's share does not fit in 64 bits.
    ShareOverflow,
    /// The ledger refused a transfer.
    TransferFailed,
}

impl AgricultureError {
    /// The text shown to a person for this error.
    pub fn message(&self) -> (text: &'static str)
        ensures
            text@ == Self::message_of(*self)@,
    {
        match self {
            AgricultureError::InsufficientYield => "Insufficient yield estimate for the lot.",
            AgricultureError::InvalidHarvestTime => "Harvest time must be in the future.",
            AgricultureError::InvalidRevenueAmount => "Revenue must be greater than zero.",
            AgricultureError::InvalidOwner => "Unauthorized owner for this action.",
            AgricultureError::LotAlreadyInitialized => "A lot is already registered for this owner.",
            AgricultureError::LotNameTooLong => "Lot name is longer than 40 bytes.",
            AgricultureError::ZeroSupply => "Token supply is zero.",
            AgricultureError::ShareOverflow => "A holder's share does not fit in 64 bits.",
            AgricultureError::TransferFailed => "The ledger rejected a transfer.",
        }
    }

    /// The text that belongs to each error.
    pub open spec fn message_of(e: AgricultureError) -> &'static str {
        match e {
            AgricultureError::InsufficientYield => "Insufficient yield estimate for the lot.",
            AgricultureError::InvalidHarvestTime => "Harvest time must be in the future.",
            AgricultureError::InvalidRevenueAmount => "Revenue must be greater than zero.",
            AgricultureError::InvalidOwner => "Unauthorized owner for this action.",
            AgricultureError::LotAlreadyInitialized => "A lot is already registered for this owner.",
            AgricultureError::LotNameTooLong => "Lot name is longer than 40 bytes.",
            AgricultureError::ZeroSupply => "Token supply is zero.",
            AgricultureError::ShareOverflow => "A holder's share does not fit in 64 bits.",
            AgricultureError::TransferFailed => "The ledger rejected a transfer.",
        }
    }
}

} // verus!
