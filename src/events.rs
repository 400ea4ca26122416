use vstd::prelude::*;

use crate::identity::Identity;

verus! {

/// Emitted once a treasury has been created.
#[derive(Clone, Copy, Debug)]
pub struct TreasuryInitialized {
    pub authority: Identity,
    pub buyback_allocation_bps: u16,
    pub liquidity_allocation_bps: u16,
    pub reserve_allocation_bps: u16,
}

/// Emitted when a fee has been recorded.
#[derive(Clone, Copy, Debug, PartialEq, Eq, Structural)]
pub struct FeeRecorded {
    pub amount: u64,
    pub total_collected: u64,
    pub timestamp: i64,
}

/// Emitted when a conversion into USDC has been recorded.
#[derive(Clone, Copy, Debug, PartialEq, Eq, Structural)]
pub struct UsdcConverted {
    pub amount: u64,
    pub total_converted: u64,
    pub timestamp: i64,
}

/// Emitted when a buyback has been carried out.
#[derive(Clone, Copy, Debug, PartialEq, Eq, Structural)]
pub struct BuybackExecuted {
    pub usdc_amount: u64,
    pub min_tokens_out: u64,
    pub timestamp: i64,
}

/// Emitted when liquidity has been added.
#[derive(Clone, Copy, Debug, PartialEq, Eq, Structural)]
pub struct LiquidityAdded {
    pub usdc_amount: u64,
    pub token_amount: u64,
    pub timestamp: i64,
}

/// Emitted when operations have been paused.
#[derive(Clone, Copy, Debug, PartialEq, Eq, Structural)]
pub struct EmergencyPaused {
    pub timestamp: i64,
}

/// Emitted when operations have been resumed.
#[derive(Clone, Copy, Debug, PartialEq, Eq, Structural)]
pub struct OperationsResumed {
    pub timestamp: i64,
}

/// Emitted on every successful configuration update, even an empty one.
#[derive(Clone, Copy, Debug, PartialEq, Eq, Structural)]
pub struct ConfigUpdated {
    pub timestamp: i64,
}

} // verus!
