use vstd::prelude::*;

verus! {

/// Every way in which a ledger operation can fail. Each one is terminal for
/// the operation that raised it, and leaves the record untouched.
#[derive(Clone, Copy, Debug, PartialEq, Eq, Structural)]
pub enum ErrorCode {
    InvalidAllocation,
    SlippageTooHigh,
    Paused,
    CooldownNotMet,
    ExceedsMaxPerCycle,
    ExceedsAllocation,
    Overflow,
    Unauthorized,
    AlreadyExists,
    TransferFailed,
}

impl ErrorCode {
    /// A human-readable description of the error.
    pub fn message(&self) -> &'static str {
        match self {
            ErrorCode::InvalidAllocation => "Allocations must sum to 100% (10000 bps)",
            ErrorCode::SlippageTooHigh => "Slippage tolerance too high (max 10%)",
            ErrorCode::Paused => "Operations are paused",
            ErrorCode::CooldownNotMet => "Cooldown period not met",
            ErrorCode::ExceedsMaxPerCycle => "Exceeds maximum USDC per cycle",
            ErrorCode::ExceedsAllocation => "Exceeds allocation budget",
            ErrorCode::Overflow => "Arithmetic overflow",
            ErrorCode::Unauthorized => "Caller is not the treasury authority",
            ErrorCode::AlreadyExists => "Treasury already exists",
            ErrorCode::TransferFailed => "Token transfer failed",
        }
    }
}

} // verus!
