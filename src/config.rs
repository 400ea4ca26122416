use vstd::prelude::*;

use crate::error::ErrorCode;
use crate::state::{MAX_SLIPPAGE_BPS, TOTAL_BPS};

verus! {

/// Fails with `InvalidAllocation` unless the three shares make up exactly
/// the whole (10000 basis points).
pub fn validate_allocations(buyback_bps: u16, liquidity_bps: u16, reserve_bps: u16) -> (r: Result<
    (),
    ErrorCode,
>)
    ensures
        r is Ok <==> buyback_bps + liquidity_bps + reserve_bps == TOTAL_BPS,
        r is Err ==> r == Err::<(), ErrorCode>(ErrorCode::InvalidAllocation),
{
    let sum: u32 = buyback_bps as u32 + liquidity_bps as u32 + reserve_bps as u32;
    if sum == TOTAL_BPS as u32 {
        Ok(())
    } else {
        Err(ErrorCode::InvalidAllocation)
    }
}

/// Fails with `SlippageTooHigh` when the tolerance is above 1000 basis points.
pub fn validate_slippage(bps: u16) -> (r: Result<(), ErrorCode>)
    ensures
        r is Ok <==> bps <= MAX_SLIPPAGE_BPS,
        r is Err ==> r == Err::<(), ErrorCode>(ErrorCode::SlippageTooHigh),
{
    if bps <= MAX_SLIPPAGE_BPS {
        Ok(())
    } else {
        Err(ErrorCode::SlippageTooHigh)
    }
}

} // verus!
