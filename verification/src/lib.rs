//! Lot registration and proportional revenue distribution for tokenized
//! agricultural lots.
//!
//! The crate holds the rules only: who may register or distribute, which
//! inputs are rejected, and how much each token holder is owed. Moving
//! tokens, reading the clock and publishing notifications are left to the
//! caller, which is told what to do one step at a time.

pub mod account;
pub mod conservation;
pub mod distribution;
pub mod error;
pub mod lot;
pub mod oracle;

pub use account::AccountId;
pub use distribution::{
    calculate_share, distribute_revenue, DistributeRevenue, Distribution, DistributionAction,
    DistributionEvent, DistributionPhase, HolderBalance, RevenueDistributed, TransferOrder,
};
pub use error::AgricultureError;
pub use lot::{initialize_lot, InitializeLot, LotAccount, LotInitialized, MAX_NAME_BYTES};
pub use oracle::{fetch_weather_data, FetchWeatherData, OracleProgram};
