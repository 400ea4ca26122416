//! Properties of the ledger that span several operations or calls.
use vstd::prelude::*;

use crate::error::ErrorCode;
use crate::identity::Identity;
use crate::state::{lemma_limit_monotone, Treasury, MAX_SLIPPAGE_BPS};
use crate::usdcball::{
    buyback_outcome, buyback_result, conversion_result, liquidity_result, record_fee_result,
    set_paused_result, update_config_result,
};

verus! {

/// One operation that moves the spending budgets: a buyback or a liquidity
/// addition whose transfer went through, or a recorded conversion.
pub enum LedgerStep {
    Buyback { caller: Identity, now: i64, amount: u64 },
    Liquidity { caller: Identity, now: i64, amount: u64 },
    Conversion { caller: Identity, amount: u64 },
}

/// The outcome of one step on `t`.
pub open spec fn step_result(t: Treasury, step: LedgerStep) -> Result<Treasury, ErrorCode> {
    match step {
        LedgerStep::Buyback { caller, now, amount } => buyback_result(t, caller, now, amount, true),
        LedgerStep::Liquidity { caller, now, amount } => liquidity_result(
            t,
            caller,
            now,
            amount,
            true,
        ),
        LedgerStep::Conversion { caller, amount } => conversion_result(t, caller, amount),
    }
}

/// The record after every step of `steps` has succeeded in turn, or `None`
/// when one of them fails.
pub open spec fn run_steps(t: Treasury, steps: Seq<LedgerStep>) -> Option<Treasury>
    decreases steps.len(),
{
    if steps.len() == 0 {
        Some(t)
    } else {
        match step_result(t, steps[0]) {
            Ok(next) => run_steps(next, steps.subrange(1, steps.len() as int)),
            Err(_) => None,
        }
    }
}

/// A successful step keeps the standing invariants, in particular that each
/// category has spent no more than its share of the converted funds.
pub proof fn lemma_step_keeps_budgets(t: Treasury, step: LedgerStep)
    requires
        t.wf(),
        step_result(t, step) is Ok,
    ensures
        step_result(t, step)->Ok_0.wf(),
{
    if let LedgerStep::Conversion { .. } = step {
        let next = step_result(t, step)->Ok_0;
        lemma_limit_monotone(
            t.total_usdc_converted,
            next.total_usdc_converted,
            t.buyback_allocation_bps,
        );
        lemma_limit_monotone(
            t.total_usdc_converted,
            next.total_usdc_converted,
            t.liquidity_allocation_bps,
        );
    }
}

/// After any sequence of successful buybacks, liquidity additions and
/// conversions, `total_buybacks <= floor(total_converted * buyback_bps /
/// 10000)` and `total_liquidity <= floor(total_converted * liquidity_bps /
/// 10000)` still hold, with the other standing invariants.
pub proof fn lemma_budgets_hold_after_steps(t: Treasury, steps: Seq<LedgerStep>)
    requires
        t.wf(),
        run_steps(t, steps) is Some,
    ensures
        run_steps(t, steps)->Some_0.wf(),
    decreases steps.len(),
{
    if steps.len() > 0 {
        lemma_step_keeps_budgets(t, steps[0]);
        lemma_budgets_hold_after_steps(
            step_result(t, steps[0])->Ok_0,
            steps.subrange(1, steps.len() as int),
        );
    }
}

/// A buyback that comes less than `cooldown_seconds` after a successful one
/// fails with `CooldownNotMet`, whatever its amount and however its transfer
/// would go; `execute_buyback` then leaves the record, counters and
/// last-operation time included, as it was.
pub proof fn lemma_cooldown_blocks_second_buyback(
    t: Treasury,
    caller: Identity,
    first_now: i64,
    first_amount: u64,
    second_now: i64,
    second_amount: u64,
    transferred: bool,
)
    requires
        buyback_result(t, caller, first_now, first_amount, true) is Ok,
        second_now - first_now < t.cooldown_seconds,
    ensures
        buyback_outcome(
            buyback_result(t, caller, first_now, first_amount, true)->Ok_0,
            caller,
            second_now,
            second_amount,
        ) == Err::<(), ErrorCode>(ErrorCode::CooldownNotMet),
        buyback_result(
            buyback_result(t, caller, first_now, first_amount, true)->Ok_0,
            caller,
            second_now,
            second_amount,
            transferred,
        ) == Err::<Treasury, ErrorCode>(ErrorCode::CooldownNotMet),
{
}

/// While the treasury is paused, recording a fee, a buyback, a liquidity
/// addition and recording a conversion all fail with `Paused`, while the
/// authority can still pause, resume and update the configuration (with an
/// acceptable slippage bound).
pub proof fn lemma_pause_gate(
    t: Treasury,
    caller: Identity,
    now: i64,
    amount: u64,
    transferred: bool,
    max_usdc_per_cycle: Option<u64>,
    cooldown_seconds: Option<i64>,
    slippage_bps: Option<u16>,
)
    requires
        t.paused,
        caller@ == t.authority@,
        slippage_bps matches Some(s) ==> s <= MAX_SLIPPAGE_BPS,
    ensures
        record_fee_result(t, amount) == Err::<Treasury, ErrorCode>(ErrorCode::Paused),
        buyback_result(t, caller, now, amount, transferred) == Err::<Treasury, ErrorCode>(
            ErrorCode::Paused,
        ),
        liquidity_result(t, caller, now, amount, transferred) == Err::<Treasury, ErrorCode>(
            ErrorCode::Paused,
        ),
        conversion_result(t, caller, amount) == Err::<Treasury, ErrorCode>(ErrorCode::Paused),
        set_paused_result(t, caller, true) is Ok,
        set_paused_result(t, caller, false) is Ok,
        update_config_result(t, caller, max_usdc_per_cycle, cooldown_seconds, slippage_bps) is Ok,
{
}

} // verus!
