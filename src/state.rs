use vstd::prelude::*;

use crate::identity::Identity;

verus! {

/// Basis points that make up the whole of the converted funds.
pub const TOTAL_BPS: u16 = 10000;

/// The largest slippage tolerance a treasury accepts, in basis points.
pub const MAX_SLIPPAGE_BPS: u16 = 1000;

/// The most a category with `bps` basis points may spend out of `converted`:
/// `floor(converted * bps / 10000)`.
pub open spec fn allocation_limit(converted: u64, bps: u16) -> int {
    (converted as int * bps as int) / 10000
}

/// The treasury record.
#[derive(Clone, Copy, Debug)]
pub struct Treasury {
    pub authority: Identity,
    pub buyback_allocation_bps: u16,
    pub liquidity_allocation_bps: u16,
    pub reserve_allocation_bps: u16,
    pub max_usdc_per_cycle: u64,
    pub cooldown_seconds: i64,
    pub slippage_bps: u16,
    pub total_sol_collected: u64,
    pub total_usdc_converted: u64,
    pub total_buybacks_usdc: u64,
    pub total_liquidity_usdc: u64,
    pub total_tokens_burned: u64,
    pub last_operation_timestamp: i64,
    pub paused: bool,
    pub bump: u8,
}

impl Treasury {
    /// The standing invariants of a treasury: the three allocations make up
    /// the whole, the slippage bound is sane, and neither spending category
    /// has gone past its share of the converted funds.
    pub open spec fn wf(&self) -> bool {
        &&& self.buyback_allocation_bps + self.liquidity_allocation_bps
            + self.reserve_allocation_bps == TOTAL_BPS
        &&& self.slippage_bps <= MAX_SLIPPAGE_BPS
        &&& self.total_buybacks_usdc <= allocation_limit(
            self.total_usdc_converted,
            self.buyback_allocation_bps,
        )
        &&& self.total_liquidity_usdc <= allocation_limit(
            self.total_usdc_converted,
            self.liquidity_allocation_bps,
        )
    }

    /// No counter of `next` is below its value in `self`.
    pub open spec fn counters_le(&self, next: Treasury) -> bool {
        &&& self.total_sol_collected <= next.total_sol_collected
        &&& self.total_usdc_converted <= next.total_usdc_converted
        &&& self.total_buybacks_usdc <= next.total_buybacks_usdc
        &&& self.total_liquidity_usdc <= next.total_liquidity_usdc
        &&& self.total_tokens_burned <= next.total_tokens_burned
    }

    /// A freshly created record: the given configuration, every counter and
    /// the last-operation time at zero, not paused.
    pub open spec fn fresh(
        authority: Identity,
        bump: u8,
        buyback_bps: u16,
        liquidity_bps: u16,
        reserve_bps: u16,
        max_usdc_per_cycle: u64,
        cooldown_seconds: i64,
        slippage_bps: u16,
    ) -> Treasury {
        Treasury {
            authority,
            buyback_allocation_bps: buyback_bps,
            liquidity_allocation_bps: liquidity_bps,
            reserve_allocation_bps: reserve_bps,
            max_usdc_per_cycle,
            cooldown_seconds,
            slippage_bps,
            total_sol_collected: 0,
            total_usdc_converted: 0,
            total_buybacks_usdc: 0,
            total_liquidity_usdc: 0,
            total_tokens_burned: 0,
            last_operation_timestamp: 0,
            paused: false,
            bump,
        }
    }
}

/// The limit of a category never exceeds the converted total when its share
/// is at most the whole.
pub proof fn lemma_limit_within_converted(converted: u64, bps: u16)
    requires
        bps <= TOTAL_BPS,
    ensures
        0 <= allocation_limit(converted, bps) <= converted,
{
    let c = converted as int;
    let b = bps as int;
    assert(0 <= c * b <= c * 10000) by (nonlinear_arith)
        requires
            0 <= c,
            0 <= b <= 10000,
    ;
}

/// More converted funds never lower a category's limit.
pub proof fn lemma_limit_monotone(c1: u64, c2: u64, bps: u16)
    requires
        c1 <= c2,
    ensures
        allocation_limit(c1, bps) <= allocation_limit(c2, bps),
{
    let a = c1 as int;
    let b = c2 as int;
    let p = bps as int;
    assert(a * p <= b * p) by (nonlinear_arith)
        requires
            0 <= a <= b,
            0 <= p,
    ;
    vstd::arithmetic::div_mod::lemma_div_is_ordered(a * p, b * p, 10000);
}

} // verus!
