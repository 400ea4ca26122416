use vstd::prelude::*;

use crate::error::ErrorCode;
use crate::identity::Identity;
use crate::state::{allocation_limit, Treasury};

verus! {

/// At `now`, at least `cooldown_seconds` have passed since the last spending
/// operation.
pub open spec fn cooldown_met(t: Treasury, now: i64) -> bool {
    now - t.last_operation_timestamp >= t.cooldown_seconds
}

/// The outcome of the allocation-budget guard. A limit that does not fit in
/// 64 bits is refused with `Overflow` rather than truncated or saturated.
pub open spec fn budget_outcome(spent: u64, amount: u64, converted: u64, bps: u16) -> Result<
    (),
    ErrorCode,
> {
    if allocation_limit(converted, bps) > u64::MAX {
        Err(ErrorCode::Overflow)
    } else if spent + amount > allocation_limit(converted, bps) {
        Err(ErrorCode::ExceedsAllocation)
    } else {
        Ok(())
    }
}

/// Fails with `Paused` while the treasury is paused.
pub fn check_not_paused(t: &Treasury) -> (r: Result<(), ErrorCode>)
    ensures
        r == (if t.paused {
            Err(ErrorCode::Paused)
        } else {
            Ok(())
        }),
{
    if t.paused {
        Err(ErrorCode::Paused)
    } else {
        Ok(())
    }
}

/// Fails with `CooldownNotMet` unless `now - last_operation_timestamp` is at
/// least `cooldown_seconds`.
pub fn check_cooldown(t: &Treasury, now: i64) -> (r: Result<(), ErrorCode>)
    ensures
        r == (if cooldown_met(*t, now) {
            Ok(())
        } else {
            Err(ErrorCode::CooldownNotMet)
        }),
{
    let elapsed: i128 = now as i128 - t.last_operation_timestamp as i128;
    if elapsed >= t.cooldown_seconds as i128 {
        Ok(())
    } else {
        Err(ErrorCode::CooldownNotMet)
    }
}

/// Fails with `ExceedsMaxPerCycle` when `amount` is above the per-operation cap.
pub fn check_cap(amount: u64, t: &Treasury) -> (r: Result<(), ErrorCode>)
    ensures
        r == (if amount > t.max_usdc_per_cycle {
            Err(ErrorCode::ExceedsMaxPerCycle)
        } else {
            Ok(())
        }),
{
    if amount > t.max_usdc_per_cycle {
        Err(ErrorCode::ExceedsMaxPerCycle)
    } else {
        Ok(())
    }
}

/// Fails unless a category that has spent `spent` may spend `amount` more:
/// the limit `floor(converted * bps / 10000)` is computed on 128 bits, an
/// over-wide limit is an `Overflow`, and `spent + amount` above the limit is
/// `ExceedsAllocation`.
pub fn check_allocation_budget(spent: u64, amount: u64, converted: u64, bps: u16) -> (r: Result<
    (),
    ErrorCode,
>)
    ensures
        r == budget_outcome(spent, amount, converted, bps),
{
    let c: u128 = converted as u128;
    let b: u128 = bps as u128;
    assert(c * b <= 0xffff_ffff_ffff_ffff * 0xffff) by (nonlinear_arith)
        requires
            c <= 0xffff_ffff_ffff_ffff,
            b <= 0xffff,
    ;
    let limit: u128 = c * b / 10000;
    if limit > u64::MAX as u128 {
        return Err(ErrorCode::Overflow);
    }
    let wanted: u128 = spent as u128 + amount as u128;
    if wanted > limit {
        Err(ErrorCode::ExceedsAllocation)
    } else {
        Ok(())
    }
}

/// Fails with `Unauthorized` unless `caller` is the treasury's authority.
pub fn check_authority(caller: &Identity, t: &Treasury) -> (r: Result<(), ErrorCode>)
    ensures
        r == (if caller@ == t.authority@ {
            Ok(())
        } else {
            Err(ErrorCode::Unauthorized)
        }),
{
    if caller.same_as(&t.authority) {
        Ok(())
    } else {
        Err(ErrorCode::Unauthorized)
    }
}

} // verus!
