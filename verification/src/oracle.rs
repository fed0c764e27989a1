//! The hook for an outside weather feed.

use vstd::prelude::*;
use crate::account::AccountId;
use crate::error::AgricultureError;

verus! {

/// Stands for the outside program that will supply weather data. It holds
/// nothing yet.
#[derive(Clone, Copy, Debug, PartialEq, Eq)]
pub struct OracleProgram;

/// The accounts that a weather lookup works on.
#[derive(Clone, Copy, Debug, PartialEq, Eq)]
pub struct FetchWeatherData {
    /// The program to ask.
    pub weather_program: OracleProgram,
    /// The caller, whose signature was checked before the lookup.
    pub farmer: AccountId,
}

/// Asks the weather program for data. No feed is connected yet: nothing is
/// read or changed, and the lookup succeeds for every caller.
pub fn fetch_weather_data(ctx: &FetchWeatherData) -> (result: Result<(), AgricultureError>)
    ensures
        result is Ok,
{
    Ok(())
}

} // verus!
