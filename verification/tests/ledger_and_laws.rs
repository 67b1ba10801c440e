use codex_budget_guard::{
    default_throttle_ladder, default_warmup_records, phase_to_string, BudgetAction, BudgetConfig,
    BudgetError, BudgetGuard, BudgetPeriod, PeriodLedger, Phase,
};

fn guard_with(config: BudgetConfig) -> BudgetGuard {
    BudgetGuard::new("laws", config)
}

// ── Phase detection on the ledger ────────────────────────────────

#[test]
fn ledger_short_history_is_stable() {
    let mut l = PeriodLedger::new();
    l.register("q", 100, 0);
    l.update("q", 10);
    l.snapshot();
    assert_eq!(l.snapshot_count("q"), 2);
    assert_eq!(l.phase("q"), Phase::Stable);
}

#[test]
fn ledger_drain_is_transitioning() {
    let mut l = PeriodLedger::new();
    l.register("energy", 100, 0);
    l.update("energy", 90);
    l.snapshot();
    l.update("energy", 80);
    l.snapshot();
    assert_eq!(l.phase("energy"), Phase::Transitioning);
}

#[test]
fn ledger_recovery_is_resolving() {
    let mut l = PeriodLedger::new();
    l.register("q", 100, 0);
    l.update("q", 90);
    l.snapshot();
    l.update("q", 80);
    l.snapshot();
    l.update("q", 95);
    l.snapshot();
    assert!(!l.is_conserved("q"));
    assert_eq!(l.phase("q"), Phase::Resolving);
}

#[test]
fn ledger_accelerating_within_tolerance_is_pre_transition() {
    let mut l = PeriodLedger::new();
    // tolerance of 50 tokens, in millionths
    l.register("q", 100, 50_000_000);
    l.update("q", 99);
    l.snapshot();
    l.update("q", 90);
    l.snapshot();
    assert!(l.is_conserved("q"));
    assert_eq!(l.phase("q"), Phase::PreTransition);
}

#[test]
fn ledger_change_below_noise_floor_is_stable() {
    let mut l = PeriodLedger::new();
    // tolerance of 1000 tokens: noise floor is 10 tokens
    l.register("q", 5000, 1_000_000_000);
    l.update("q", 4995);
    l.snapshot();
    l.update("q", 4990);
    l.snapshot();
    assert_eq!(l.phase("q"), Phase::Stable);
    l.update("q", 4979);
    l.snapshot();
    assert_eq!(l.phase("q"), Phase::PreTransition);
}

#[test]
fn ledger_register_overwrites_existing() {
    let mut l = PeriodLedger::new();
    l.register("x", 50, 1);
    l.register("x", 99, 2);
    assert_eq!(l.registered(), vec!["x".to_string()]);
    assert_eq!(l.current_value("x"), 99);
    assert_eq!(l.initial_value("x"), 99);
    assert_eq!(l.snapshot_count("x"), 1);
}

#[test]
fn ledger_reset_baseline_clears_violation() {
    let mut l = PeriodLedger::new();
    l.register("budget", 100, 0);
    l.update("budget", 50);
    assert!(!l.is_conserved("budget"));
    l.reset_baseline("budget");
    assert!(l.is_conserved("budget"));
    assert_eq!(l.initial_value("budget"), 50);
}

#[test]
fn ledger_increase_is_conserved() {
    let mut l = PeriodLedger::new();
    l.register("q", 10, 0);
    l.update("q", 999);
    assert!(l.is_conserved("q"));
}

#[test]
fn ledger_drift_rate_is_change_over_steps() {
    let mut l = PeriodLedger::new();
    l.register("budget", 500, 100_000_000);
    assert_eq!(l.drift_rate("budget"), (0, 0));
    l.update("budget", 450);
    l.snapshot();
    l.update("budget", 420);
    l.snapshot();
    assert_eq!(l.drift_rate("budget"), (-80, 2));
}

#[test]
fn ledger_registered_keeps_registration_order() {
    let mut l = PeriodLedger::new();
    assert!(l.is_empty());
    l.register("b", 1, 0);
    l.register("a", 2, 0);
    l.register("c", 3, 0);
    assert!(!l.is_empty());
    assert!(l.contains("a"));
    assert!(!l.contains("d"));
    assert_eq!(l.registered(), vec!["b".to_string(), "a".to_string(), "c".to_string()]);
}

#[test]
fn phase_names() {
    assert_eq!(phase_to_string(Phase::Stable), "Stable");
    assert_eq!(phase_to_string(Phase::PreTransition), "PreTransition");
    assert_eq!(phase_to_string(Phase::Transitioning), "Transitioning");
    assert_eq!(phase_to_string(Phase::Resolving), "Resolving");
}

// ── Throttling ───────────────────────────────────────────────────

#[test]
fn consumption_bands_decide_throttling() {
    let config = BudgetConfig::builder().daily(1000).warmup_records(1).build();
    let mut guard = guard_with(config);
    // 50% consumed: Stable
    assert_eq!(guard.record(500, "gpt-5-codex").unwrap(), BudgetAction::Proceed("gpt-5-codex".into()));
    assert_eq!(guard.checker().budget_phase("daily"), Phase::Stable);
    // 70% consumed: warning band, still proceeds
    assert_eq!(guard.record(200, "gpt-5-codex").unwrap(), BudgetAction::Proceed("gpt-5-codex".into()));
    assert_eq!(guard.checker().budget_phase("daily"), Phase::PreTransition);
    assert_eq!(guard.throttle_level(), 0);
    // 90% consumed: critical band, throttles one rung
    assert_eq!(guard.record(200, "gpt-5-codex").unwrap(), BudgetAction::Throttle("gpt-4.1".into()));
    assert_eq!(guard.checker().budget_phase("daily"), Phase::Transitioning);
    assert_eq!(guard.throttle_level(), 1);
}

#[test]
fn below_warning_band_proceeds() {
    let config = BudgetConfig::builder().daily(1000).warmup_records(1).build();
    let mut guard = guard_with(config);
    assert_eq!(guard.record(100, "gpt-5-codex").unwrap(), BudgetAction::Proceed("gpt-5-codex".into()));
    assert_eq!(guard.record(100, "gpt-5-codex").unwrap(), BudgetAction::Proceed("gpt-5-codex".into()));
    assert_eq!(guard.record(399, "gpt-5-codex").unwrap(), BudgetAction::Proceed("gpt-5-codex".into()));
    assert_eq!(guard.snapshot().periods[0].1.phase, "Stable");
}

#[test]
fn critical_band_walks_down_the_ladder_and_stops_at_the_last_rung() {
    let config = BudgetConfig::builder().daily(10_000).warmup_records(1).build();
    let mut guard = guard_with(config);
    assert_eq!(guard.record(8_500, "gpt-5-codex").unwrap(), BudgetAction::Throttle("gpt-4.1".into()));
    assert_eq!(guard.throttle_level(), 1);
    let expected = ["gpt-4.1-mini", "gpt-4.1-nano", "gpt-4.1-nano", "gpt-4.1-nano"];
    for (i, model) in expected.iter().enumerate() {
        let action = guard.record(100, "gpt-4.1").unwrap();
        assert_eq!(action, BudgetAction::Throttle((*model).to_string()));
        assert_eq!(guard.throttle_level(), (i + 2).min(3));
    }
}

#[test]
fn warmup_proceeds_with_active_model() {
    let config = BudgetConfig::builder().daily(10_000).warmup_records(3).build();
    let mut guard = guard_with(config);
    assert_eq!(guard.record(3_000, "a").unwrap(), BudgetAction::Proceed("a".into()));
    assert_eq!(guard.record(3_000, "b").unwrap(), BudgetAction::Proceed("b".into()));
    // third record ends warmup at 90% consumed: critical band
    assert_eq!(guard.record(3_000, "c").unwrap(), BudgetAction::Throttle("gpt-4.1".into()));
}

// ── Halting ──────────────────────────────────────────────────────

#[test]
fn halt_only_when_every_period_is_exhausted() {
    let config = BudgetConfig::builder().daily(100).weekly(150).warmup_records(1).build();
    let mut guard = guard_with(config);
    // daily exhausted, weekly not: critical band, throttled but not halted
    assert_eq!(guard.record(100, "m").unwrap(), BudgetAction::Throttle("gpt-4.1".into()));
    assert_ne!(guard.recommend_action(), BudgetAction::Halt);
    assert_eq!(guard.record(50, "m").unwrap(), BudgetAction::Halt);
    assert_eq!(guard.record(0, "m").unwrap(), BudgetAction::Halt);
    assert_eq!(guard.throttle_level(), 1);
}

#[test]
fn guard_without_periods_is_unlimited_and_record_still_counts() {
    let config = BudgetConfig { daily: None, weekly: None, monthly: None, ..BudgetConfig::default() };
    let mut guard = guard_with(config);
    assert_eq!(guard.recommend_action(), BudgetAction::Proceed("gpt-5-codex".into()));
    match guard.record(100, "m") {
        Err(BudgetError::NotRegistered(s)) => assert_eq!(s, "no budget periods"),
        Ok(a) => panic!("expected an error, got {:?}", a),
    }
    assert_eq!(guard.record_count(), 1);
    assert_eq!(guard.cumulative_total(), 100);
    assert_eq!(guard.history().len(), 1);
    assert_eq!(guard.active_model(), "m");
    assert_eq!(guard.recommend_action(), BudgetAction::Proceed("m".into()));
}

// ── Resets ───────────────────────────────────────────────────────

#[test]
fn reset_restores_limit_and_keeps_baseline() {
    let config = BudgetConfig::builder().daily(200).warmup_records(1).build();
    let mut guard = guard_with(config);
    guard.record(250, "m").unwrap();
    assert_eq!(guard.checker().current_value("daily"), -50);
    assert_eq!(guard.recommend_action(), BudgetAction::Halt);
    guard.reset_period(BudgetPeriod::Daily).unwrap();
    assert_eq!(guard.checker().initial_value("daily"), 200);
    assert_eq!(guard.checker().current_value("daily"), 200);
    assert!(guard.checker().is_conserved("daily"));
    assert_eq!(guard.checker().snapshot_count("daily"), 3);
    assert_eq!(guard.checker().budget_phase("daily"), Phase::Stable);
    let snap = guard.snapshot();
    let (_, daily) = &snap.periods[0];
    assert_eq!(daily.limit, 200);
    assert_eq!(daily.consumed, 0);
    assert_eq!(daily.remaining, 200);
}

#[test]
fn reset_of_unregistered_period_names_it() {
    let config = BudgetConfig::builder().daily(100).build();
    let mut guard = guard_with(config);
    let err = guard.reset_period(BudgetPeriod::Monthly).unwrap_err();
    assert_eq!(err.to_string(), "budget period 'monthly' is not registered");
    assert_eq!(guard.checker().snapshot_count("daily"), 1);
}

// ── Snapshots ────────────────────────────────────────────────────

#[test]
fn snapshot_reports_each_period_exactly() {
    let config = BudgetConfig::builder().daily(500).weekly(1000).warmup_records(1).build();
    let mut guard = guard_with(config);
    guard.record(100, "m").unwrap();
    let snap = guard.snapshot();
    assert_eq!(snap.periods.len(), 2);
    let (label, daily) = &snap.periods[0];
    assert_eq!(label, "daily");
    assert_eq!(daily.limit, 500);
    assert_eq!(daily.consumed, 100);
    assert_eq!(daily.remaining, 400);
    assert!(!daily.violated);
    assert_eq!(daily.phase, "Stable");
    assert_eq!((daily.drift_total, daily.drift_steps), (-100, 1));
    assert_eq!(daily.consumed + daily.remaining, daily.limit);
    assert_eq!(snap.periods[1].0, "weekly");
    assert_eq!(snap.periods[1].1.remaining, 900);
    assert_eq!(snap.active_model, "m");
}

#[test]
fn restored_guard_resumes_periods() {
    let config = BudgetConfig::builder().daily(1000).weekly(5000).warmup_records(1).build();
    let mut guard = guard_with(config.clone());
    guard.record(400, "gpt-4.1").unwrap();
    guard.record(100, "gpt-4.1").unwrap();
    let level = guard.throttle_level();
    let restored = BudgetGuard::from_snapshot(guard.snapshot(), config);
    assert_eq!(restored.record_count(), 0);
    assert!(restored.history().is_empty());
    assert_eq!(restored.cumulative_total(), 500);
    assert_eq!(restored.throttle_level(), level);
    assert_eq!(restored.active_model(), "gpt-4.1");
    assert_eq!(restored.checker().registered(), vec!["daily".to_string(), "weekly".to_string()]);
    assert_eq!(restored.checker().initial_value("daily"), 1000);
    assert_eq!(restored.checker().current_value("daily"), 500);
    assert_eq!(restored.checker().current_value("weekly"), 4500);
}

#[test]
fn restored_overspent_period_stays_exhausted() {
    let config = BudgetConfig::builder().daily(100).warmup_records(1).build();
    let mut guard = guard_with(config.clone());
    guard.record(150, "m").unwrap();
    let restored = BudgetGuard::from_snapshot(guard.snapshot(), config);
    assert_eq!(restored.checker().current_value("daily"), 0);
    assert_eq!(restored.recommend_action(), BudgetAction::Halt);
}

// ── Construction ─────────────────────────────────────────────────

#[test]
fn empty_ladder_leaves_model_unknown() {
    let config = BudgetConfig::builder().daily(100).throttle_ladder(vec![]).build();
    let guard = guard_with(config);
    assert_eq!(guard.active_model(), "unknown");
}

#[test]
fn new_registers_periods_in_order_with_scaled_tolerance() {
    let config = BudgetConfig::builder().monthly(3000).daily(100).tolerance(100_000).build();
    let mut guard = guard_with(config);
    assert_eq!(guard.checker().registered(), vec!["daily".to_string(), "monthly".to_string()]);
    // the whole 100 daily tokens and 10% more may be spent before the budget
    // is violated
    guard.record(110, "m").unwrap();
    assert!(guard.checker().is_conserved("daily"));
    guard.record(1, "m").unwrap();
    assert!(!guard.checker().is_conserved("daily"));
}

#[test]
fn defaults() {
    let config = BudgetConfig::default();
    assert_eq!(config.daily, Some(500_000));
    assert_eq!(config.weekly, Some(2_500_000));
    assert_eq!(config.monthly, Some(10_000_000));
    assert_eq!(config.tolerance, 0);
    assert_eq!(config.warmup_records, default_warmup_records());
    assert_eq!(
        default_throttle_ladder(),
        vec!["gpt-5-codex".to_string(), "gpt-4.1".to_string(), "gpt-4.1-mini".to_string(), "gpt-4.1-nano".to_string()]
    );
}

#[test]
fn cumulative_total_is_sum_of_history() {
    let mut guard = guard_with(BudgetConfig::builder().daily(1_000_000).build());
    for t in [5u64, 17, 0, 250, 3] {
        guard.record(t, "m").unwrap();
    }
    let sum: u128 = guard.history().iter().map(|r| r.tokens as u128).sum();
    assert_eq!(guard.cumulative_total(), sum);
    assert_eq!(sum, 275);
}
