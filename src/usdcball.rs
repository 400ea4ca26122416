//! The ledger's operations. Each one is a transition on the treasury record:
//! it runs its guards in a fixed order, and either fails with the first
//! guard's error and no change, or applies its whole mutation and returns the
//! event to log. The `*_result` spec functions state each transition.
use vstd::prelude::*;

use crate::config::{validate_allocations, validate_slippage};
use crate::error::ErrorCode;
use crate::events::{
    BuybackExecuted, ConfigUpdated, EmergencyPaused, FeeRecorded, LiquidityAdded,
    OperationsResumed, TreasuryInitialized, UsdcConverted,
};
use crate::guards::{
    budget_outcome, check_allocation_budget, check_authority, check_cap, check_cooldown,
    check_not_paused, cooldown_met,
};
use crate::identity::Identity;
use crate::state::{
    lemma_limit_monotone, lemma_limit_within_converted, Treasury, MAX_SLIPPAGE_BPS, TOTAL_BPS,
};

verus! {

/// The value of an optional override, or `current` when it is absent.
pub open spec fn overridden<T>(patch: Option<T>, current: T) -> T {
    match patch {
        Some(v) => v,
        None => current,
    }
}

/// The guards shared by both spending operations, in order: authority,
/// pause, cooldown, per-operation cap, and the category's budget.
pub open spec fn spend_outcome(
    t: Treasury,
    caller: Identity,
    now: i64,
    amount: u64,
    spent: u64,
    bps: u16,
) -> Result<(), ErrorCode> {
    if caller@ != t.authority@ {
        Err(ErrorCode::Unauthorized)
    } else if t.paused {
        Err(ErrorCode::Paused)
    } else if !cooldown_met(t, now) {
        Err(ErrorCode::CooldownNotMet)
    } else if amount > t.max_usdc_per_cycle {
        Err(ErrorCode::ExceedsMaxPerCycle)
    } else {
        budget_outcome(spent, amount, t.total_usdc_converted, bps)
    }
}

/// Whether a buyback of `amount` may go ahead.
pub open spec fn buyback_outcome(t: Treasury, caller: Identity, now: i64, amount: u64) -> Result<
    (),
    ErrorCode,
> {
    spend_outcome(t, caller, now, amount, t.total_buybacks_usdc, t.buyback_allocation_bps)
}

/// Whether adding `amount` of liquidity may go ahead.
pub open spec fn liquidity_outcome(
    t: Treasury,
    caller: Identity,
    now: i64,
    amount: u64,
) -> Result<(), ErrorCode> {
    spend_outcome(t, caller, now, amount, t.total_liquidity_usdc, t.liquidity_allocation_bps)
}

/// Creating the record in `slot`.
pub open spec fn initialize_result(
    slot: Option<Treasury>,
    authority: Identity,
    bump: u8,
    buyback_bps: u16,
    liquidity_bps: u16,
    reserve_bps: u16,
    max_usdc_per_cycle: u64,
    cooldown_seconds: i64,
    slippage_bps: u16,
) -> Result<Treasury, ErrorCode> {
    if slot is Some {
        Err(ErrorCode::AlreadyExists)
    } else if buyback_bps + liquidity_bps + reserve_bps != TOTAL_BPS {
        Err(ErrorCode::InvalidAllocation)
    } else if slippage_bps > MAX_SLIPPAGE_BPS {
        Err(ErrorCode::SlippageTooHigh)
    } else {
        Ok(
            Treasury::fresh(
                authority,
                bump,
                buyback_bps,
                liquidity_bps,
                reserve_bps,
                max_usdc_per_cycle,
                cooldown_seconds,
                slippage_bps,
            ),
        )
    }
}

/// Recording a fee of `amount`.
pub open spec fn record_fee_result(t: Treasury, amount: u64) -> Result<Treasury, ErrorCode> {
    if t.paused {
        Err(ErrorCode::Paused)
    } else if t.total_sol_collected + amount > u64::MAX {
        Err(ErrorCode::Overflow)
    } else {
        Ok(Treasury { total_sol_collected: (t.total_sol_collected + amount) as u64, ..t })
    }
}

/// A buyback of `amount`, where `transferred` tells whether the token
/// transfer that carries it out succeeded.
pub open spec fn buyback_result(
    t: Treasury,
    caller: Identity,
    now: i64,
    amount: u64,
    transferred: bool,
) -> Result<Treasury, ErrorCode> {
    match buyback_outcome(t, caller, now, amount) {
        Err(e) => Err(e),
        Ok(_) => if !transferred {
            Err(ErrorCode::TransferFailed)
        } else {
            Ok(
                Treasury {
                    total_buybacks_usdc: (t.total_buybacks_usdc + amount) as u64,
                    last_operation_timestamp: now,
                    ..t
                },
            )
        },
    }
}

/// Adding `amount` of liquidity, where `transferred` tells whether the token
/// transfer that carries it out succeeded.
pub open spec fn liquidity_result(
    t: Treasury,
    caller: Identity,
    now: i64,
    amount: u64,
    transferred: bool,
) -> Result<Treasury, ErrorCode> {
    match liquidity_outcome(t, caller, now, amount) {
        Err(e) => Err(e),
        Ok(_) => if !transferred {
            Err(ErrorCode::TransferFailed)
        } else {
            Ok(
                Treasury {
                    total_liquidity_usdc: (t.total_liquidity_usdc + amount) as u64,
                    last_operation_timestamp: now,
                    ..t
                },
            )
        },
    }
}

/// Recording a conversion of `amount` into USDC.
pub open spec fn conversion_result(t: Treasury, caller: Identity, amount: u64) -> Result<
    Treasury,
    ErrorCode,
> {
    if caller@ != t.authority@ {
        Err(ErrorCode::Unauthorized)
    } else if t.paused {
        Err(ErrorCode::Paused)
    } else if t.total_usdc_converted + amount > u64::MAX {
        Err(ErrorCode::Overflow)
    } else {
        Ok(Treasury { total_usdc_converted: (t.total_usdc_converted + amount) as u64, ..t })
    }
}

/// Setting the pause flag to `paused`.
pub open spec fn set_paused_result(t: Treasury, caller: Identity, paused: bool) -> Result<
    Treasury,
    ErrorCode,
> {
    if caller@ != t.authority@ {
        Err(ErrorCode::Unauthorized)
    } else {
        Ok(Treasury { paused, ..t })
    }
}

/// Applying the supplied overrides to the configuration.
pub open spec fn update_config_result(
    t: Treasury,
    caller: Identity,
    max_usdc_per_cycle: Option<u64>,
    cooldown_seconds: Option<i64>,
    slippage_bps: Option<u16>,
) -> Result<Treasury, ErrorCode> {
    if caller@ != t.authority@ {
        Err(ErrorCode::Unauthorized)
    } else if slippage_bps matches Some(s) && s > MAX_SLIPPAGE_BPS {
        Err(ErrorCode::SlippageTooHigh)
    } else {
        Ok(
            Treasury {
                max_usdc_per_cycle: overridden(max_usdc_per_cycle, t.max_usdc_per_cycle),
                cooldown_seconds: overridden(cooldown_seconds, t.cooldown_seconds),
                slippage_bps: overridden(slippage_bps, t.slippage_bps),
                ..t
            },
        )
    }
}

fn check_spend(
    t: &Treasury,
    caller: &Identity,
    now: i64,
    amount: u64,
    spent: u64,
    bps: u16,
) -> (r: Result<(), ErrorCode>)
    ensures
        r == spend_outcome(*t, *caller, now, amount, spent, bps),
{
    if let Err(e) = check_authority(caller, t) {
        return Err(e);
    }
    if let Err(e) = check_not_paused(t) {
        return Err(e);
    }
    if let Err(e) = check_cooldown(t, now) {
        return Err(e);
    }
    if let Err(e) = check_cap(amount, t) {
        return Err(e);
    }
    check_allocation_budget(spent, amount, t.total_usdc_converted, bps)
}

/// Runs the guards of a buyback without changing anything. A caller that
/// gets `Ok` carries out the transfer and then calls `execute_buyback`.
pub fn check_buyback(t: &Treasury, caller: &Identity, now: i64, usdc_amount: u64) -> (r: Result<
    (),
    ErrorCode,
>)
    ensures
        r == buyback_outcome(*t, *caller, now, usdc_amount),
{
    check_spend(t, caller, now, usdc_amount, t.total_buybacks_usdc, t.buyback_allocation_bps)
}

/// Runs the guards of a liquidity addition without changing anything. A
/// caller that gets `Ok` carries out the transfer and then calls
/// `add_liquidity`.
pub fn check_liquidity(t: &Treasury, caller: &Identity, now: i64, usdc_amount: u64) -> (r: Result<
    (),
    ErrorCode,
>)
    ensures
        r == liquidity_outcome(*t, *caller, now, usdc_amount),
{
    check_spend(t, caller, now, usdc_amount, t.total_liquidity_usdc, t.liquidity_allocation_bps)
}

/// Records a buyback of `usdc_amount` at time `now`. `transferred` is the
/// outcome of the token transfer that moved the funds out; when it failed,
/// or any guard fails, the record is left as it was.
pub fn execute_buyback(
    treasury: &mut Treasury,
    caller: &Identity,
    now: i64,
    usdc_amount: u64,
    min_tokens_out: u64,
    transferred: bool,
) -> (r: Result<BuybackExecuted, ErrorCode>)
    ensures
        r is Ok <==> buyback_result(*old(treasury), *caller, now, usdc_amount, transferred) is Ok,
        r is Ok ==> *final(treasury) == buyback_result(
            *old(treasury),
            *caller,
            now,
            usdc_amount,
            transferred,
        )->Ok_0,
        r is Ok ==> r->Ok_0 == (BuybackExecuted { usdc_amount, min_tokens_out, timestamp: now }),
        r is Err ==> *final(treasury) == *old(treasury),
        r is Err ==> buyback_result(*old(treasury), *caller, now, usdc_amount, transferred)
            == Err::<Treasury, ErrorCode>(r->Err_0),
        old(treasury).counters_le(*final(treasury)),
        old(treasury).wf() ==> final(treasury).wf(),
        old(treasury).wf() ==> r != Err::<BuybackExecuted, ErrorCode>(ErrorCode::Overflow),
        old(treasury).cooldown_seconds >= 0 ==> old(treasury).last_operation_timestamp
            <= final(treasury).last_operation_timestamp,
{
    proof {
        if old(treasury).wf() {
            lemma_limit_within_converted(
                treasury.total_usdc_converted,
                treasury.buyback_allocation_bps,
            );
        }
    }
    if let Err(e) = check_buyback(treasury, caller, now, usdc_amount) {
        return Err(e);
    }
    if !transferred {
        return Err(ErrorCode::TransferFailed);
    }
    let total = match treasury.total_buybacks_usdc.checked_add(usdc_amount) {
        Some(v) => v,
        None => return Err(ErrorCode::Overflow),
    };
    treasury.total_buybacks_usdc = total;
    treasury.last_operation_timestamp = now;
    Ok(BuybackExecuted { usdc_amount, min_tokens_out, timestamp: now })
}

/// Records adding `usdc_amount` of liquidity (paired with `token_amount`
/// tokens) at time `now`. `transferred` is the outcome of the token transfer
/// into the pool; when it failed, or any guard fails, the record is left as
/// it was.
pub fn add_liquidity(
    treasury: &mut Treasury,
    caller: &Identity,
    now: i64,
    usdc_amount: u64,
    token_amount: u64,
    transferred: bool,
) -> (r: Result<LiquidityAdded, ErrorCode>)
    ensures
        r is Ok <==> liquidity_result(*old(treasury), *caller, now, usdc_amount, transferred) is Ok,
        r is Ok ==> *final(treasury) == liquidity_result(
            *old(treasury),
            *caller,
            now,
            usdc_amount,
            transferred,
        )->Ok_0,
        r is Ok ==> r->Ok_0 == (LiquidityAdded { usdc_amount, token_amount, timestamp: now }),
        r is Err ==> *final(treasury) == *old(treasury),
        r is Err ==> liquidity_result(*old(treasury), *caller, now, usdc_amount, transferred)
            == Err::<Treasury, ErrorCode>(r->Err_0),
        old(treasury).counters_le(*final(treasury)),
        old(treasury).wf() ==> final(treasury).wf(),
        old(treasury).wf() ==> r != Err::<LiquidityAdded, ErrorCode>(ErrorCode::Overflow),
        old(treasury).cooldown_seconds >= 0 ==> old(treasury).last_operation_timestamp
            <= final(treasury).last_operation_timestamp,
{
    proof {
        if old(treasury).wf() {
            lemma_limit_within_converted(
                treasury.total_usdc_converted,
                treasury.liquidity_allocation_bps,
            );
        }
    }
    if let Err(e) = check_liquidity(treasury, caller, now, usdc_amount) {
        return Err(e);
    }
    if !transferred {
        return Err(ErrorCode::TransferFailed);
    }
    let total = match treasury.total_liquidity_usdc.checked_add(usdc_amount) {
        Some(v) => v,
        None => return Err(ErrorCode::Overflow),
    };
    treasury.total_liquidity_usdc = total;
    treasury.last_operation_timestamp = now;
    Ok(LiquidityAdded { usdc_amount, token_amount, timestamp: now })
}

/// Creates the treasury record in `slot`, with `authority` as its sole
/// privileged principal. Fails with `AlreadyExists` when the slot is taken,
/// then with `InvalidAllocation` unless the shares make up 10000 basis
/// points, then with `SlippageTooHigh` above 1000 basis points.
pub fn initialize(
    slot: &mut Option<Treasury>,
    authority: Identity,
    bump: u8,
    buyback_allocation_bps: u16,
    liquidity_allocation_bps: u16,
    reserve_allocation_bps: u16,
    max_usdc_per_cycle: u64,
    cooldown_seconds: i64,
    slippage_bps: u16,
) -> (r: Result<TreasuryInitialized, ErrorCode>)
    ensures
        r is Ok <==> initialize_result(
            *old(slot),
            authority,
            bump,
            buyback_allocation_bps,
            liquidity_allocation_bps,
            reserve_allocation_bps,
            max_usdc_per_cycle,
            cooldown_seconds,
            slippage_bps,
        ) is Ok,
        r is Ok ==> *final(slot) == Some(
            initialize_result(
                *old(slot),
                authority,
                bump,
                buyback_allocation_bps,
                liquidity_allocation_bps,
                reserve_allocation_bps,
                max_usdc_per_cycle,
                cooldown_seconds,
                slippage_bps,
            )->Ok_0,
        ),
        r is Ok ==> r->Ok_0 == (TreasuryInitialized {
            authority,
            buyback_allocation_bps,
            liquidity_allocation_bps,
            reserve_allocation_bps,
        }),
        r is Err ==> *final(slot) == *old(slot),
        r is Err ==> initialize_result(
            *old(slot),
            authority,
            bump,
            buyback_allocation_bps,
            liquidity_allocation_bps,
            reserve_allocation_bps,
            max_usdc_per_cycle,
            cooldown_seconds,
            slippage_bps,
        ) == Err::<Treasury, ErrorCode>(r->Err_0),
        *old(slot) is None && buyback_allocation_bps + liquidity_allocation_bps
            + reserve_allocation_bps == TOTAL_BPS && slippage_bps <= MAX_SLIPPAGE_BPS ==> r is Ok
            && (*final(slot))->Some_0.wf(),
        *old(slot) is None && buyback_allocation_bps + liquidity_allocation_bps
            + reserve_allocation_bps != TOTAL_BPS ==> r == Err::<TreasuryInitialized, ErrorCode>(
            ErrorCode::InvalidAllocation,
        ) && *final(slot) is None,
{
    if slot.is_some() {
        return Err(ErrorCode::AlreadyExists);
    }
    if let Err(e) = validate_allocations(
        buyback_allocation_bps,
        liquidity_allocation_bps,
        reserve_allocation_bps,
    ) {
        return Err(e);
    }
    if let Err(e) = validate_slippage(slippage_bps) {
        return Err(e);
    }
    let t = Treasury {
        authority,
        buyback_allocation_bps,
        liquidity_allocation_bps,
        reserve_allocation_bps,
        max_usdc_per_cycle,
        cooldown_seconds,
        slippage_bps,
        total_sol_collected: 0,
        total_usdc_converted: 0,
        total_buybacks_usdc: 0,
        total_liquidity_usdc: 0,
        total_tokens_burned: 0,
        last_operation_timestamp: 0,
        paused: false,
        bump,
    };
    *slot = Some(t);
    Ok(
        TreasuryInitialized {
            authority,
            buyback_allocation_bps,
            liquidity_allocation_bps,
            reserve_allocation_bps,
        },
    )
}

/// Adds `amount` to the collected fees. Open to any caller; fails with
/// `Paused` while paused and with `Overflow` when the total would not fit.
pub fn record_fee(treasury: &mut Treasury, now: i64, amount: u64) -> (r: Result<
    FeeRecorded,
    ErrorCode,
>)
    ensures
        r is Ok <==> record_fee_result(*old(treasury), amount) is Ok,
        r is Ok ==> *final(treasury) == record_fee_result(*old(treasury), amount)->Ok_0,
        r is Ok ==> r->Ok_0 == (FeeRecorded {
            amount,
            total_collected: final(treasury).total_sol_collected,
            timestamp: now,
        }),
        r is Err ==> *final(treasury) == *old(treasury),
        r is Err ==> record_fee_result(*old(treasury), amount) == Err::<Treasury, ErrorCode>(
            r->Err_0,
        ),
        old(treasury).counters_le(*final(treasury)),
        old(treasury).wf() ==> final(treasury).wf(),
{
    if let Err(e) = check_not_paused(treasury) {
        return Err(e);
    }
    let total = match treasury.total_sol_collected.checked_add(amount) {
        Some(v) => v,
        None => return Err(ErrorCode::Overflow),
    };
    treasury.total_sol_collected = total;
    Ok(FeeRecorded { amount, total_collected: total, timestamp: now })
}

/// Adds `usdc_amount` to the converted total, which raises both spending
/// budgets. Fails with `Unauthorized`, then `Paused`, then `Overflow`.
pub fn record_usdc_conversion(
    treasury: &mut Treasury,
    caller: &Identity,
    now: i64,
    usdc_amount: u64,
) -> (r: Result<UsdcConverted, ErrorCode>)
    ensures
        r is Ok <==> conversion_result(*old(treasury), *caller, usdc_amount) is Ok,
        r is Ok ==> *final(treasury) == conversion_result(
            *old(treasury),
            *caller,
            usdc_amount,
        )->Ok_0,
        r is Ok ==> r->Ok_0 == (UsdcConverted {
            amount: usdc_amount,
            total_converted: final(treasury).total_usdc_converted,
            timestamp: now,
        }),
        r is Err ==> *final(treasury) == *old(treasury),
        r is Err ==> conversion_result(*old(treasury), *caller, usdc_amount) == Err::<
            Treasury,
            ErrorCode,
        >(r->Err_0),
        old(treasury).counters_le(*final(treasury)),
        old(treasury).wf() ==> final(treasury).wf(),
{
    if let Err(e) = check_authority(caller, treasury) {
        return Err(e);
    }
    if let Err(e) = check_not_paused(treasury) {
        return Err(e);
    }
    let total = match treasury.total_usdc_converted.checked_add(usdc_amount) {
        Some(v) => v,
        None => return Err(ErrorCode::Overflow),
    };
    proof {
        lemma_limit_monotone(treasury.total_usdc_converted, total, treasury.buyback_allocation_bps);
        lemma_limit_monotone(
            treasury.total_usdc_converted,
            total,
            treasury.liquidity_allocation_bps,
        );
    }
    treasury.total_usdc_converted = total;
    Ok(UsdcConverted { amount: usdc_amount, total_converted: total, timestamp: now })
}

/// Pauses every fee, conversion and spending operation. Only the authority
/// may do so; pausing a paused treasury succeeds again.
pub fn emergency_pause(treasury: &mut Treasury, caller: &Identity, now: i64) -> (r: Result<
    EmergencyPaused,
    ErrorCode,
>)
    ensures
        r is Ok <==> set_paused_result(*old(treasury), *caller, true) is Ok,
        r is Ok ==> *final(treasury) == set_paused_result(*old(treasury), *caller, true)->Ok_0,
        r is Ok ==> r->Ok_0 == (EmergencyPaused { timestamp: now }),
        r is Err ==> *final(treasury) == *old(treasury) && r->Err_0 == ErrorCode::Unauthorized,
        old(treasury).counters_le(*final(treasury)),
        old(treasury).wf() ==> final(treasury).wf(),
{
    if let Err(e) = check_authority(caller, treasury) {
        return Err(e);
    }
    treasury.paused = true;
    Ok(EmergencyPaused { timestamp: now })
}

/// Lifts a pause. Only the authority may do so; resuming an active treasury
/// succeeds too.
pub fn resume(treasury: &mut Treasury, caller: &Identity, now: i64) -> (r: Result<
    OperationsResumed,
    ErrorCode,
>)
    ensures
        r is Ok <==> set_paused_result(*old(treasury), *caller, false) is Ok,
        r is Ok ==> *final(treasury) == set_paused_result(*old(treasury), *caller, false)->Ok_0,
        r is Ok ==> r->Ok_0 == (OperationsResumed { timestamp: now }),
        r is Err ==> *final(treasury) == *old(treasury) && r->Err_0 == ErrorCode::Unauthorized,
        old(treasury).counters_le(*final(treasury)),
        old(treasury).wf() ==> final(treasury).wf(),
{
    if let Err(e) = check_authority(caller, treasury) {
        return Err(e);
    }
    treasury.paused = false;
    Ok(OperationsResumed { timestamp: now })
}

/// Applies the supplied overrides of the per-operation cap, the cooldown and
/// the slippage bound, and leaves the absent ones as they are. Only the
/// authority may do so, paused or not; a slippage above 1000 basis points
/// refuses the whole update.
pub fn update_config(
    treasury: &mut Treasury,
    caller: &Identity,
    now: i64,
    max_usdc_per_cycle: Option<u64>,
    cooldown_seconds: Option<i64>,
    slippage_bps: Option<u16>,
) -> (r: Result<ConfigUpdated, ErrorCode>)
    ensures
        r is Ok <==> update_config_result(
            *old(treasury),
            *caller,
            max_usdc_per_cycle,
            cooldown_seconds,
            slippage_bps,
        ) is Ok,
        r is Ok ==> *final(treasury) == update_config_result(
            *old(treasury),
            *caller,
            max_usdc_per_cycle,
            cooldown_seconds,
            slippage_bps,
        )->Ok_0,
        r is Ok ==> r->Ok_0 == (ConfigUpdated { timestamp: now }),
        r is Err ==> *final(treasury) == *old(treasury),
        r is Err ==> update_config_result(
            *old(treasury),
            *caller,
            max_usdc_per_cycle,
            cooldown_seconds,
            slippage_bps,
        ) == Err::<Treasury, ErrorCode>(r->Err_0),
        caller@ == old(treasury).authority@ && max_usdc_per_cycle is None
            && cooldown_seconds is None && slippage_bps is None ==> r == Ok::<
            ConfigUpdated,
            ErrorCode,
        >(ConfigUpdated { timestamp: now }) && *final(treasury) == *old(treasury),
        old(treasury).counters_le(*final(treasury)),
        old(treasury).wf() ==> final(treasury).wf(),
{
    if let Err(e) = check_authority(caller, treasury) {
        return Err(e);
    }
    if let Some(s) = slippage_bps {
        if let Err(e) = validate_slippage(s) {
            return Err(e);
        }
        treasury.slippage_bps = s;
    }
    if let Some(m) = max_usdc_per_cycle {
        treasury.max_usdc_per_cycle = m;
    }
    if let Some(c) = cooldown_seconds {
        treasury.cooldown_seconds = c;
    }
    Ok(ConfigUpdated { timestamp: now })
}

} // verus!
