use usdcball::config::{validate_allocations, validate_slippage};
use usdcball::guards::{
    check_allocation_budget, check_authority, check_cap, check_cooldown, check_not_paused,
};
use usdcball::usdcball::{
    add_liquidity, check_buyback, check_liquidity, emergency_pause, execute_buyback, initialize,
    record_fee, record_usdc_conversion, resume, update_config,
};
use usdcball::{
    BuybackExecuted, ConfigUpdated, EmergencyPaused, ErrorCode, FeeRecorded, Identity,
    LiquidityAdded, OperationsResumed, Treasury, UsdcConverted,
};

fn authority() -> Identity {
    Identity::new([7u8; 32])
}

fn stranger() -> Identity {
    let mut bytes = [7u8; 32];
    bytes[31] = 8;
    Identity::new(bytes)
}

fn make(b: u16, l: u16, r: u16, max: u64, cooldown: i64, slippage: u16) -> Treasury {
    let mut slot: Option<Treasury> = None;
    initialize(&mut slot, authority(), 254, b, l, r, max, cooldown, slippage).unwrap();
    slot.unwrap()
}

fn standard() -> Treasury {
    make(3000, 3000, 4000, 1_000_000, 3600, 500)
}

fn counters(t: &Treasury) -> (u64, u64, u64, u64, u64, i64) {
    (
        t.total_sol_collected,
        t.total_usdc_converted,
        t.total_buybacks_usdc,
        t.total_liquidity_usdc,
        t.total_tokens_burned,
        t.last_operation_timestamp,
    )
}

fn budgets_hold(t: &Treasury) -> bool {
    let c = t.total_usdc_converted as u128;
    t.total_buybacks_usdc as u128 <= c * t.buyback_allocation_bps as u128 / 10000
        && t.total_liquidity_usdc as u128 <= c * t.liquidity_allocation_bps as u128 / 10000
}

#[test]
fn initialize_sets_configuration_and_zero_counters() {
    let mut slot: Option<Treasury> = None;
    let ev = initialize(&mut slot, authority(), 9, 3000, 3000, 4000, 1_000_000, 3600, 500).unwrap();
    assert_eq!(ev.authority.bytes, [7u8; 32]);
    assert_eq!(ev.buyback_allocation_bps, 3000);
    assert_eq!(ev.liquidity_allocation_bps, 3000);
    assert_eq!(ev.reserve_allocation_bps, 4000);
    let t = slot.unwrap();
    assert_eq!(t.authority.bytes, [7u8; 32]);
    assert_eq!(t.max_usdc_per_cycle, 1_000_000);
    assert_eq!(t.cooldown_seconds, 3600);
    assert_eq!(t.slippage_bps, 500);
    assert_eq!(t.bump, 9);
    assert!(!t.paused);
    assert_eq!(counters(&t), (0, 0, 0, 0, 0, 0));
}

#[test]
fn initialize_accepts_every_valid_split() {
    for (b, l, r) in [(10000u16, 0u16, 0u16), (0, 10000, 0), (0, 0, 10000), (2500, 2500, 5000)] {
        for s in [0u16, 1000] {
            let mut slot: Option<Treasury> = None;
            assert!(initialize(&mut slot, authority(), 0, b, l, r, 5, -3, s).is_ok());
            let t = slot.unwrap();
            assert!(budgets_hold(&t));
            assert_eq!(counters(&t), (0, 0, 0, 0, 0, 0));
        }
    }
}

#[test]
fn initialize_rejects_bad_allocation_and_creates_nothing() {
    for (b, l, r) in [(3000u16, 3000u16, 3999u16), (3000, 3000, 4001), (0, 0, 0), (65535, 65535, 65535)] {
        let mut slot: Option<Treasury> = None;
        let res = initialize(&mut slot, authority(), 0, b, l, r, 1, 1, 100);
        assert_eq!(res.unwrap_err(), ErrorCode::InvalidAllocation);
        assert!(slot.is_none());
    }
}

#[test]
fn initialize_rejects_high_slippage() {
    let mut slot: Option<Treasury> = None;
    let res = initialize(&mut slot, authority(), 0, 3000, 3000, 4000, 1, 1, 1001);
    assert_eq!(res.unwrap_err(), ErrorCode::SlippageTooHigh);
    assert!(slot.is_none());
}

#[test]
fn initialize_twice_is_already_exists() {
    let mut slot: Option<Treasury> = None;
    initialize(&mut slot, authority(), 1, 3000, 3000, 4000, 1, 1, 100).unwrap();
    let res = initialize(&mut slot, stranger(), 2, 10000, 0, 0, 9, 9, 0);
    assert_eq!(res.unwrap_err(), ErrorCode::AlreadyExists);
    let t = slot.unwrap();
    assert_eq!(t.bump, 1);
    assert_eq!(t.buyback_allocation_bps, 3000);
}

#[test]
fn validators() {
    assert!(validate_allocations(3000, 3000, 4000).is_ok());
    assert_eq!(validate_allocations(3000, 3000, 3000), Err(ErrorCode::InvalidAllocation));
    assert_eq!(validate_allocations(u16::MAX, u16::MAX, 10002), Err(ErrorCode::InvalidAllocation));
    assert!(validate_slippage(1000).is_ok());
    assert_eq!(validate_slippage(1001), Err(ErrorCode::SlippageTooHigh));
}

#[test]
fn guard_checks() {
    let mut t = standard();
    assert!(check_not_paused(&t).is_ok());
    t.paused = true;
    assert_eq!(check_not_paused(&t), Err(ErrorCode::Paused));
    t.last_operation_timestamp = 100;
    assert_eq!(check_cooldown(&t, 3699), Err(ErrorCode::CooldownNotMet));
    assert!(check_cooldown(&t, 3700).is_ok());
    assert!(check_cap(1_000_000, &t).is_ok());
    assert_eq!(check_cap(1_000_001, &t), Err(ErrorCode::ExceedsMaxPerCycle));
    assert!(check_authority(&authority(), &t).is_ok());
    assert_eq!(check_authority(&stranger(), &t), Err(ErrorCode::Unauthorized));
}

#[test]
fn cooldown_survives_extreme_timestamps() {
    let mut t = standard();
    t.last_operation_timestamp = i64::MIN;
    t.cooldown_seconds = i64::MAX;
    assert!(check_cooldown(&t, i64::MAX).is_ok());
    t.last_operation_timestamp = i64::MAX;
    assert_eq!(check_cooldown(&t, i64::MIN), Err(ErrorCode::CooldownNotMet));
}

#[test]
fn allocation_budget_limit_and_overflow() {
    // floor(100_000 * 3000 / 10000) = 30_000
    assert!(check_allocation_budget(29_000, 1_000, 100_000, 3000).is_ok());
    assert_eq!(check_allocation_budget(29_000, 1_001, 100_000, 3000), Err(ErrorCode::ExceedsAllocation));
    // floor(3 * 3333 / 10000) = 0
    assert_eq!(check_allocation_budget(0, 1, 3, 3333), Err(ErrorCode::ExceedsAllocation));
    assert!(check_allocation_budget(0, 0, 3, 3333).is_ok());
    // the spent amount and the request together exceed u64
    assert_eq!(check_allocation_budget(u64::MAX, u64::MAX, u64::MAX, 10000), Err(ErrorCode::ExceedsAllocation));
    assert!(check_allocation_budget(u64::MAX - 1, 1, u64::MAX, 10000).is_ok());
    // a share above the whole gives a limit wider than 64 bits
    assert_eq!(check_allocation_budget(0, 0, u64::MAX, 20000), Err(ErrorCode::Overflow));
}

#[test]
fn record_fee_adds_and_reports() {
    let mut t = standard();
    let ev = record_fee(&mut t, 42, 500).unwrap();
    assert_eq!(ev, FeeRecorded { amount: 500, total_collected: 500, timestamp: 42 });
    let ev = record_fee(&mut t, 43, 250).unwrap();
    assert_eq!(ev.total_collected, 750);
    assert_eq!(t.total_sol_collected, 750);
}

#[test]
fn record_fee_overflow_leaves_record() {
    let mut t = standard();
    record_fee(&mut t, 1, u64::MAX).unwrap();
    assert_eq!(record_fee(&mut t, 2, 1), Err(ErrorCode::Overflow));
    assert_eq!(t.total_sol_collected, u64::MAX);
}

#[test]
fn conversion_adds_and_checks_authority() {
    let mut t = standard();
    let ev = record_usdc_conversion(&mut t, &authority(), 10, 100_000).unwrap();
    assert_eq!(ev, UsdcConverted { amount: 100_000, total_converted: 100_000, timestamp: 10 });
    assert_eq!(record_usdc_conversion(&mut t, &stranger(), 11, 5), Err(ErrorCode::Unauthorized));
    assert_eq!(t.total_usdc_converted, 100_000);
    assert_eq!(record_usdc_conversion(&mut t, &authority(), 12, u64::MAX), Err(ErrorCode::Overflow));
    assert_eq!(t.total_usdc_converted, 100_000);
}

#[test]
fn buyback_scenario_with_cooldown_and_budget() {
    let mut t = standard();
    record_usdc_conversion(&mut t, &authority(), 1, 100_000).unwrap();
    assert_eq!(t.total_usdc_converted, 100_000);
    let t0: i64 = 1_700_000_000;
    let ev = execute_buyback(&mut t, &authority(), t0, 29_000, 123, true).unwrap();
    assert_eq!(ev, BuybackExecuted { usdc_amount: 29_000, min_tokens_out: 123, timestamp: t0 });
    assert_eq!(t.total_buybacks_usdc, 29_000);
    assert_eq!(t.last_operation_timestamp, t0);
    let before = counters(&t);
    assert_eq!(execute_buyback(&mut t, &authority(), t0 + 3599, 2_000, 0, true), Err(ErrorCode::CooldownNotMet));
    assert_eq!(counters(&t), before);
    assert_eq!(execute_buyback(&mut t, &authority(), t0 + 3600, 2_000, 0, true), Err(ErrorCode::ExceedsAllocation));
    assert_eq!(counters(&t), before);
    assert!(budgets_hold(&t));
}

#[test]
fn buyback_guard_order_and_transfer_failure() {
    let mut t = standard();
    record_usdc_conversion(&mut t, &authority(), 1, 10_000_000).unwrap();
    let before = counters(&t);
    assert_eq!(execute_buyback(&mut t, &stranger(), 5000, 10, 0, true), Err(ErrorCode::Unauthorized));
    assert_eq!(execute_buyback(&mut t, &authority(), 100, 10, 0, true), Err(ErrorCode::CooldownNotMet));
    assert_eq!(execute_buyback(&mut t, &authority(), 5000, 1_000_001, 0, true), Err(ErrorCode::ExceedsMaxPerCycle));
    assert_eq!(check_buyback(&t, &authority(), 5000, 1_000_000), Ok(()));
    assert_eq!(execute_buyback(&mut t, &authority(), 5000, 1_000_000, 0, false), Err(ErrorCode::TransferFailed));
    assert_eq!(counters(&t), before);
}

#[test]
fn liquidity_follows_its_own_budget() {
    let mut t = make(1000, 2000, 7000, 1_000_000, 60, 100);
    record_usdc_conversion(&mut t, &authority(), 1, 50_000).unwrap();
    // floor(50_000 * 2000 / 10000) = 10_000
    assert_eq!(check_liquidity(&t, &authority(), 60, 10_001), Err(ErrorCode::ExceedsAllocation));
    let ev = add_liquidity(&mut t, &authority(), 60, 10_000, 77, true).unwrap();
    assert_eq!(ev, LiquidityAdded { usdc_amount: 10_000, token_amount: 77, timestamp: 60 });
    assert_eq!(t.total_liquidity_usdc, 10_000);
    assert_eq!(t.last_operation_timestamp, 60);
    assert_eq!(add_liquidity(&mut t, &authority(), 119, 0, 0, true), Err(ErrorCode::CooldownNotMet));
    assert_eq!(add_liquidity(&mut t, &authority(), 120, 1, 0, true), Err(ErrorCode::ExceedsAllocation));
    assert_eq!(add_liquidity(&mut t, &authority(), 120, 0, 0, false), Err(ErrorCode::TransferFailed));
    assert_eq!(t.last_operation_timestamp, 60);
    // the buyback budget is untouched: floor(50_000 * 1000 / 10000) = 5_000
    assert!(execute_buyback(&mut t, &authority(), 200, 5_000, 0, true).is_ok());
    assert!(budgets_hold(&t));
}

#[test]
fn budgets_hold_after_mixed_sequence() {
    let mut t = make(4000, 3500, 2500, 1_000, 0, 0);
    let mut now: i64 = 0;
    for i in 0..50u64 {
        let _ = record_usdc_conversion(&mut t, &authority(), now, 333 + i);
        let _ = execute_buyback(&mut t, &authority(), now, 150 + i, 0, true);
        let _ = add_liquidity(&mut t, &authority(), now, 120 + 2 * i, 0, true);
        assert!(budgets_hold(&t));
        now += 1;
    }
    assert!(t.total_buybacks_usdc > 0);
    assert!(t.total_liquidity_usdc > 0);
}

#[test]
fn pause_blocks_ledger_operations_only() {
    let mut t = standard();
    record_usdc_conversion(&mut t, &authority(), 1, 100_000).unwrap();
    assert_eq!(emergency_pause(&mut t, &stranger(), 2), Err(ErrorCode::Unauthorized));
    assert!(!t.paused);
    assert_eq!(emergency_pause(&mut t, &authority(), 2), Ok(EmergencyPaused { timestamp: 2 }));
    assert!(t.paused);
    let before = counters(&t);
    assert_eq!(record_fee(&mut t, 3, 1), Err(ErrorCode::Paused));
    assert_eq!(execute_buyback(&mut t, &authority(), 10_000, 1, 0, true), Err(ErrorCode::Paused));
    assert_eq!(add_liquidity(&mut t, &authority(), 10_000, 1, 0, true), Err(ErrorCode::Paused));
    assert_eq!(record_usdc_conversion(&mut t, &authority(), 3, 1), Err(ErrorCode::Paused));
    assert_eq!(counters(&t), before);
    assert_eq!(emergency_pause(&mut t, &authority(), 4), Ok(EmergencyPaused { timestamp: 4 }));
    assert_eq!(update_config(&mut t, &authority(), 5, Some(7), None, None), Ok(ConfigUpdated { timestamp: 5 }));
    assert_eq!(t.max_usdc_per_cycle, 7);
    assert_eq!(resume(&mut t, &stranger(), 6), Err(ErrorCode::Unauthorized));
    assert_eq!(resume(&mut t, &authority(), 6), Ok(OperationsResumed { timestamp: 6 }));
    assert!(!t.paused);
    assert_eq!(resume(&mut t, &authority(), 7), Ok(OperationsResumed { timestamp: 7 }));
    assert!(record_fee(&mut t, 8, 1).is_ok());
}

#[test]
fn update_config_applies_only_supplied_fields() {
    let mut t = standard();
    update_config(&mut t, &authority(), 1, None, Some(-5), None).unwrap();
    assert_eq!((t.max_usdc_per_cycle, t.cooldown_seconds, t.slippage_bps), (1_000_000, -5, 500));
    update_config(&mut t, &authority(), 1, Some(9), Some(10), Some(1000)).unwrap();
    assert_eq!((t.max_usdc_per_cycle, t.cooldown_seconds, t.slippage_bps), (9, 10, 1000));
}

#[test]
fn update_config_rejects_high_slippage_atomically() {
    let mut t = standard();
    assert_eq!(update_config(&mut t, &authority(), 1, Some(9), Some(10), Some(1001)), Err(ErrorCode::SlippageTooHigh));
    assert_eq!((t.max_usdc_per_cycle, t.cooldown_seconds, t.slippage_bps), (1_000_000, 3600, 500));
    assert_eq!(update_config(&mut t, &stranger(), 1, Some(9), None, None), Err(ErrorCode::Unauthorized));
    assert_eq!(t.max_usdc_per_cycle, 1_000_000);
}

#[test]
fn empty_update_config_is_noop_but_reports() {
    let mut t = standard();
    record_usdc_conversion(&mut t, &authority(), 1, 10).unwrap();
    let before = (counters(&t), t.max_usdc_per_cycle, t.cooldown_seconds, t.slippage_bps, t.paused);
    let ev = update_config(&mut t, &authority(), 99, None, None, None).unwrap();
    assert_eq!(ev, ConfigUpdated { timestamp: 99 });
    let after = (counters(&t), t.max_usdc_per_cycle, t.cooldown_seconds, t.slippage_bps, t.paused);
    assert_eq!(before, after);
}

#[test]
fn identity_comparison() {
    assert!(authority().same_as(&authority()));
    assert!(!authority().same_as(&stranger()));
}

#[test]
fn error_messages() {
    assert_eq!(ErrorCode::Paused.message(), "Operations are paused");
    assert_eq!(ErrorCode::InvalidAllocation.message(), "Allocations must sum to 100% (10000 bps)");
}
