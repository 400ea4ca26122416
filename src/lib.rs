//! A budget-allocation ledger for a pooled treasury.
//!
//! The treasury record splits converted funds between a buyback budget, a
//! liquidity budget and an implicit reserve. Every operation is a pure
//! transition on the record: it runs its guards, and either fails with no
//! change at all or applies its whole mutation and returns the event to log.
use vstd::prelude::*;

pub mod config;
pub mod error;
pub mod events;
pub mod guards;
pub mod identity;
pub mod laws;
pub mod state;
pub mod usdcball;

pub use error::ErrorCode;
pub use events::{
    BuybackExecuted, ConfigUpdated, EmergencyPaused, FeeRecorded, LiquidityAdded,
    OperationsResumed, TreasuryInitialized, UsdcConverted,
};
pub use identity::Identity;
pub use state::Treasury;

verus! {

} // verus!
