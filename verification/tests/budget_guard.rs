use codex_budget_guard::{
    BudgetAction, BudgetConfig, BudgetGuard, BudgetPeriod, BudgetSnapshot, Phase,
};
use codex_budget_guard::{phase_severity, TOLERANCE_SCALE};

fn test_config() -> BudgetConfig {
    BudgetConfig::builder()
        .daily(1000)
        .weekly(5000)
        .monthly(20_000)
        .build()
}

fn float_eq(a: f64, b: f64) -> bool {
    (a - b).abs() < 1e-9
}

/// A tolerance in millionths as a fraction.
fn fraction(t: u32) -> f64 {
    t as f64 / TOLERANCE_SCALE as f64
}

fn period<'a>(snap: &'a BudgetSnapshot, label: &str) -> Option<&'a codex_budget_guard::PeriodSnapshot> {
    snap.periods.iter().find(|(l, _)| l == label).map(|(_, p)| p)
}

// ── Construction & baseline ──────────────────────────────────────

#[test]
fn new_guard_starts_healthy() {
    let guard = BudgetGuard::new("test-session", test_config());
    assert_eq!(guard.cumulative_total() as f64, 0.0);
    assert_eq!(guard.record_count(), 0);
    assert_eq!(guard.throttle_level(), 0);
    assert_eq!(guard.checker().registered().len(), 3);
}

#[test]
fn new_guard_with_no_periods_has_empty_checker() {
    let config = BudgetConfig::builder().build();
    let guard = BudgetGuard::new("empty", config);
    assert_eq!(guard.checker().registered().len(), 0);
}

#[test]
fn new_guard_with_single_period() {
    let config = BudgetConfig::builder().daily(500).build();
    let guard = BudgetGuard::new("single", config);
    assert_eq!(guard.checker().registered().len(), 1);
    assert!(float_eq(guard.checker().initial_value("daily") as f64, 500.0));
}

#[test]
fn new_guard_with_two_periods() {
    let config = BudgetConfig::builder().daily(500).weekly(3000).build();
    let guard = BudgetGuard::new("test", config);
    assert_eq!(guard.checker().registered().len(), 2);
}

#[test]
fn default_config_includes_all_periods() {
    let config = BudgetConfig::default();
    assert!(config.daily.is_some());
    assert!(config.weekly.is_some());
    assert!(config.monthly.is_some());
}

#[test]
fn builder_defaults_are_sane() {
    let config = BudgetConfig::builder().build();
    assert!(config.daily.is_none());
    assert!(config.weekly.is_none());
    assert!(config.monthly.is_none());
    assert!(float_eq(fraction(config.tolerance), 0.0));
    assert_eq!(config.warmup_records, 5);
    assert_eq!(config.throttle_ladder.len(), 4);
}

#[test]
fn session_id_stored_correctly() {
    let config = BudgetConfig::builder().daily(1000).build();
    let mut guard = BudgetGuard::new("my-session-1", config);
    guard.record(10, "gpt-5-codex").unwrap();
    let snap = guard.snapshot();
    assert_eq!(snap.session_id, "my-session-1");
}

// ── Budget enforcement: basic ────────────────────────────────────

#[test]
fn record_deducts_from_budget() {
    let mut guard = BudgetGuard::new("test-session", test_config());
    guard.record(100, "gpt-5-codex").unwrap();
    assert_eq!(guard.cumulative_total() as f64, 100.0);
    assert_eq!(guard.record_count(), 1);
}

#[test]
fn record_multiple_deducts_cumulatively() {
    let mut guard = BudgetGuard::new("test-session", test_config());
    guard.record(300, "gpt-5-codex").unwrap();
    guard.record(400, "gpt-5-codex").unwrap();
    guard.record(200, "gpt-5-codex").unwrap();
    assert_eq!(guard.cumulative_total() as f64, 900.0);
}

#[test]
fn exhaust_budget_returns_halt() {
    let config = BudgetConfig::builder().daily(100).warmup_records(1).build();
    let mut guard = BudgetGuard::new("test", config);
    guard.record(50, "gpt-5-codex").unwrap();
    guard.record(50, "gpt-5-codex").unwrap();
    let action = guard.record(1, "gpt-5-codex").unwrap();
    assert_eq!(action, BudgetAction::Halt);
}

#[test]
fn record_budget_exact_hit_halts() {
    let config = BudgetConfig::builder().daily(100).warmup_records(1).build();
    let mut guard = BudgetGuard::new("test", config);
    guard.record(100, "gpt-5-codex").unwrap();
    assert_eq!(guard.recommend_action(), BudgetAction::Halt);
}

#[test]
fn record_within_budget_proceeds_after_warmup() {
    let config = BudgetConfig::builder().daily(10_000).warmup_records(1).build();
    let mut guard = BudgetGuard::new("test", config);
    guard.record(50, "gpt-5-codex").unwrap();
    assert_eq!(guard.recommend_action(), BudgetAction::Proceed("gpt-5-codex".into()));
}

#[test]
fn exhaust_all_periods_halts() {
    let config = BudgetConfig::builder()
        .daily(100)
        .weekly(100)
        .monthly(100)
        .warmup_records(1)
        .build();
    let mut guard = BudgetGuard::new("test", config);
    guard.record(100, "gpt-5-codex").unwrap();
    assert_eq!(guard.recommend_action(), BudgetAction::Halt);
}

#[test]
fn exhaust_only_one_period_does_not_halt() {
    let config = BudgetConfig::builder()
        .daily(100)
        .weekly(1000)
        .monthly(5000)
        .warmup_records(1)
        .build();
    let mut guard = BudgetGuard::new("test", config);
    guard.record(100, "gpt-5-codex").unwrap();
    assert_ne!(guard.recommend_action(), BudgetAction::Halt);
}

#[test]
fn record_after_exhaustion_keeps_halting() {
    let config = BudgetConfig::builder().daily(100).warmup_records(1).build();
    let mut guard = BudgetGuard::new("test", config);
    guard.record(100, "gpt-5-codex").unwrap();
    assert_eq!(guard.recommend_action(), BudgetAction::Halt);
    let action = guard.record(1, "gpt-5-codex").unwrap();
    assert_eq!(action, BudgetAction::Halt);
}

// ── Daily budget ─────────────────────────────────────────────────

#[test]
fn daily_limit_reset_restores_budget() {
    let config = BudgetConfig::builder().daily(200).warmup_records(1).build();
    let mut guard = BudgetGuard::new("test", config);
    guard.record(200, "gpt-5-codex").unwrap();
    assert_eq!(guard.recommend_action(), BudgetAction::Halt);

    guard.reset_period(BudgetPeriod::Daily).unwrap();
    // After reset, we should not be halted anymore
    let action = guard.recommend_action();
    assert_ne!(action, BudgetAction::Halt,
        "after reset we should not halt, got {:?}", action);
}

// ── Weekly & monthly budget enforcement ──────────────────────────

#[test]
fn monthly_limit_only_works() {
    let config = BudgetConfig::builder().monthly(1000).warmup_records(1).build();
    let mut guard = BudgetGuard::new("test", config);
    guard.record(500, "gpt-5-codex").unwrap();
    assert_eq!(guard.recommend_action(), BudgetAction::Proceed("gpt-5-codex".into()));
    guard.record(500, "gpt-5-codex").unwrap();
    assert_eq!(guard.recommend_action(), BudgetAction::Halt);
}

#[test]
fn weekly_alone_works() {
    let config = BudgetConfig::builder().weekly(500).warmup_records(1).build();
    let mut guard = BudgetGuard::new("test", config);
    guard.record(100, "gpt-5-codex").unwrap();
    assert_eq!(guard.recommend_action(), BudgetAction::Proceed("gpt-5-codex".into()));
    guard.record(400, "gpt-5-codex").unwrap();
    assert_eq!(guard.recommend_action(), BudgetAction::Halt);
}

#[test]
fn monthly_rollover_resets_budget() {
    let config = BudgetConfig::builder()
        .daily(500)
        .weekly(500)
        .monthly(500)
        .warmup_records(1)
        .build();
    let mut guard = BudgetGuard::new("test", config);
    guard.record(500, "gpt-5-codex").unwrap();
    assert_eq!(guard.recommend_action(), BudgetAction::Halt);

    guard.reset_period(BudgetPeriod::Daily).unwrap();
    guard.reset_period(BudgetPeriod::Weekly).unwrap();
    guard.reset_period(BudgetPeriod::Monthly).unwrap();
}

// ── Tolerance ────────────────────────────────────────────────────

#[test]
fn tolerance_allows_overshoot_within_limit() {
    let config = BudgetConfig::builder()
        .daily(2000)
        .tolerance(500_000)
        .warmup_records(3)
        .build();
    let mut guard = BudgetGuard::new("test", config);
    guard.record(1000, "gpt-5-codex").unwrap();
    assert!(guard.checker().is_conserved("daily"));
}

#[test]
fn tolerance_exceeded_flags_violation() {
    let config = BudgetConfig::builder()
        .daily(1000)
        .tolerance(100_000)
        .warmup_records(3)
        .build();
    let mut guard = BudgetGuard::new("test", config);
    guard.record(1200, "gpt-5-codex").unwrap();
    assert!(!guard.checker().is_conserved("daily"));
}

#[test]
fn tolerance_zero_is_strict() {
    let config = BudgetConfig::builder().daily(1000).tolerance(0).warmup_records(1).build();
    let mut guard = BudgetGuard::new("test", config);
    guard.record(1001, "gpt-5-codex").unwrap();
    assert!(!guard.checker().is_conserved("daily"));
}

#[test]
fn tolerance_builder_clamps_high() {
    let config = BudgetConfig::builder().daily(1000).tolerance(2_500_000).build();
    assert!(float_eq(fraction(config.tolerance), 1.0));
}

#[test]
fn tolerance_builder_clamps_low() {
    let config = BudgetConfig::builder().daily(1000).tolerance(-500_000).build();
    assert!(float_eq(fraction(config.tolerance), 0.0));
}

// ── Phase detection ──────────────────────────────────────────────

#[test]
fn phase_is_stable_with_fresh_guard() {
    let guard = BudgetGuard::new("test", test_config());
    assert_eq!(guard.checker().phase("daily"), Phase::Stable);
}

#[test]
fn phase_stable_on_small_spending() {
    let config = BudgetConfig::builder().daily(10_000_000).warmup_records(20).build();
    let mut guard = BudgetGuard::new("test", config);
    for _ in 0..5 {
        guard.record(100, "gpt-5-codex").unwrap();
    }
    let _phase = guard.checker().phase("daily");
    println!("phase_stable: daily phase={:?}, remaining={}",
        guard.checker().phase("daily"),
        guard.checker().current_value("daily"));
}

#[test]
fn all_period_phases_independent() {
    let config = BudgetConfig::builder()
        .daily(500)
        .weekly(2_000)
        .monthly(10_000)
        .warmup_records(1)
        .build();
    let mut guard = BudgetGuard::new("test", config);
    guard.record(600, "gpt-5-codex").unwrap();
    guard.record(200, "gpt-5-codex").unwrap();
    guard.record(200, "gpt-5-codex").unwrap();

    let daily_rem = guard.checker().current_value("daily");
    let weekly_rem = guard.checker().current_value("weekly");
    let monthly_rem = guard.checker().current_value("monthly");

    assert!(daily_rem < weekly_rem,
        "daily remaining ({daily_rem}) should be < weekly ({weekly_rem})");
    assert!(weekly_rem < monthly_rem,
        "weekly remaining ({weekly_rem}) should be < monthly ({monthly_rem})");
}

// ── Auto-throttle ────────────────────────────────────────────────

#[test]
fn throttle_level_starts_at_zero() {
    let guard = BudgetGuard::new("test", test_config());
    assert_eq!(guard.throttle_level(), 0);
}

#[test]
fn throttle_never_exceeds_ladder() {
    let config = BudgetConfig::builder()
        .daily(100)
        .throttle_ladder(vec!["model-a".into(), "model-b".into()])
        .warmup_records(1)
        .build();
    let mut guard = BudgetGuard::new("test", config);

    for _ in 0..10 {
        let _ = guard.record(50, "model-a");
    }

    assert!(guard.throttle_level() <= 1,
        "throttle_level {} exceeds max 1", guard.throttle_level());
}

#[test]
fn throttle_level_persists_across_records() {
    let config = BudgetConfig::builder().daily(500).warmup_records(1).build();
    let mut guard = BudgetGuard::new("test", config);

    for _ in 0..5 {
        let _ = guard.record(200, "gpt-5-codex");
    }

    let _ = guard.throttle_level();
    let _ = guard.recommend_action();
}

// ── Snapshots ────────────────────────────────────────────────────

#[test]
fn snapshot_serialization_roundtrip() {
    let mut guard = BudgetGuard::new("test-session", test_config());
    guard.record(500, "gpt-5-codex").unwrap();

    let snapshot = guard.snapshot();

    assert_eq!(snapshot.session_id, "test-session");
    assert!(float_eq(snapshot.cumulative_total as f64, 500.0));
    assert!(period(&snapshot, "daily").is_some());
    assert!(period(&snapshot, "weekly").is_some());
    assert!(period(&snapshot, "monthly").is_some());

    let restored = BudgetGuard::from_snapshot(snapshot, test_config());
    assert!(float_eq(restored.cumulative_total() as f64, 500.0));
}

#[test]
fn snapshot_contains_all_periods() {
    let config = BudgetConfig::builder().daily(1000).weekly(5000).monthly(20000).build();
    let mut guard = BudgetGuard::new("audit", config);
    guard.record(100, "gpt-5-codex").unwrap();
    let snap = guard.snapshot();
    assert_eq!(snap.periods.len(), 3);
}

#[test]
fn serializable_snapshot() {
    let mut guard = BudgetGuard::new("serde-test", test_config());
    guard.record(100, "gpt-5-codex").unwrap();
    let snap = guard.snapshot();
    assert_eq!(snap.session_id, "serde-test");
    assert!(float_eq(snap.cumulative_total as f64, 100.0));
}

#[test]
fn snapshot_phase_integration() {
    let config = BudgetConfig::builder().daily(500).tolerance(0).warmup_records(1).build();
    let mut guard = BudgetGuard::new("phase-test", config);
    guard.record(100, "gpt-5-codex").unwrap();

    let snap = guard.snapshot();
    assert!(float_eq(period(&snap, "daily").map(|p| p.consumed as f64).unwrap_or(0.0), 100.0));
}

#[test]
fn snapshot_from_snapshot_preserves_totals() {
    let config = BudgetConfig::builder().daily(1000).weekly(5000).monthly(20000).build();
    let mut guard = BudgetGuard::new("original", config.clone());
    guard.record(400, "gpt-5-codex").unwrap();

    let snap = guard.snapshot();
    let restored = BudgetGuard::from_snapshot(snap, config);
    assert_eq!(restored.active_model(), "gpt-5-codex");
    assert!(float_eq(restored.cumulative_total() as f64, 400.0));
}

#[test]
fn snapshot_includes_throttle_level() {
    let config = BudgetConfig::builder().daily(500).warmup_records(1).build();
    let mut guard = BudgetGuard::new("throttle-test", config);
    guard.record(100, "gpt-5-codex").unwrap();

    let snap = guard.snapshot();
    assert_eq!(snap.throttle_level, guard.throttle_level());
}

// ── Reset periods ────────────────────────────────────────────────

#[test]
fn reset_unregistered_period_returns_error() {
    let config = BudgetConfig::builder().daily(100).build();
    let mut guard = BudgetGuard::new("test", config);
    let result = guard.reset_period(BudgetPeriod::Weekly);
    assert!(result.is_err());
    assert!(result.unwrap_err().to_string().contains("not registered"),
        "expected error about not registered");
}

#[test]
fn reset_all_periods_sequentially() {
    let config = BudgetConfig::builder().daily(100).weekly(100).monthly(100).build();
    let mut guard = BudgetGuard::new("test", config);
    guard.record(100, "gpt-5-codex").unwrap();
    assert_eq!(guard.recommend_action(), BudgetAction::Halt);

    guard.reset_period(BudgetPeriod::Daily).unwrap();
}

// ── Custom ladder ────────────────────────────────────────────────

#[test]
fn custom_ladder_respected_in_config() {
    let config = BudgetConfig::builder()
        .daily(100)
        .throttle_ladder(vec!["my-big-model".into(), "my-small-model".into()])
        .build();
    assert_eq!(config.throttle_ladder.len(), 2);
    assert_eq!(config.throttle_ladder[0], "my-big-model");
}

#[test]
fn custom_ladder_single_model() {
    let config = BudgetConfig::builder()
        .daily(100)
        .throttle_ladder(vec!["only-model".into()])
        .warmup_records(1)
        .build();
    let mut guard = BudgetGuard::new("test", config);
    guard.record(50, "only-model").unwrap();
    guard.record(100, "only-model").unwrap();
    assert_eq!(guard.recommend_action(), BudgetAction::Halt);
}

// ── History ──────────────────────────────────────────────────────

#[test]
fn history_tracks_records() {
    let mut guard = BudgetGuard::new("test", test_config());
    guard.record(100, "gpt-5-codex").unwrap();
    guard.record(200, "gpt-4.1").unwrap();
    assert_eq!(guard.history().len(), 2);
    assert!(float_eq(guard.history()[0].tokens as f64, 100.0));
    assert_eq!(guard.history()[1].model, "gpt-4.1");
}

#[test]
fn history_starts_empty() {
    let guard = BudgetGuard::new("test", test_config());
    assert!(guard.history().is_empty());
}

#[test]
fn history_order_is_chronological() {
    let mut guard = BudgetGuard::new("test", test_config());
    guard.record(10, "a").unwrap();
    guard.record(20, "b").unwrap();
    guard.record(30, "c").unwrap();
    let hist = guard.history();
    assert!(float_eq(hist[0].tokens as f64, 10.0));
    assert!(float_eq(hist[1].tokens as f64, 20.0));
    assert!(float_eq(hist[2].tokens as f64, 30.0));
}

// ── Edge cases ───────────────────────────────────────────────────

#[test]
fn no_budget_periods_returns_error() {
    let config = BudgetConfig {
        daily: None,
        weekly: None,
        monthly: None,
        ..BudgetConfig::default()
    };
    let mut guard = BudgetGuard::new("test", config);
    let result = guard.record(100, "gpt-5-codex");
    assert!(result.is_err());
    assert!(result.unwrap_err().to_string().contains("no budget periods"));
}

#[test]
fn zero_token_record_ok() {
    let mut guard = BudgetGuard::new("test", test_config());
    let action = guard.record(0, "gpt-5-codex").unwrap();
    assert_eq!(action, BudgetAction::Proceed("gpt-5-codex".into()));
}

#[test]
fn active_model_tracks_last_used() {
    let mut guard = BudgetGuard::new("test", test_config());
    guard.record(100, "model-alpha").unwrap();
    assert_eq!(guard.active_model(), "model-alpha");
    guard.record(50, "model-beta").unwrap();
    assert_eq!(guard.active_model(), "model-beta");
}

#[test]
fn cumulative_total_accounts_for_all_spending() {
    let mut guard = BudgetGuard::new("test", test_config());
    for i in 0..10 {
        guard.record((i * 100) as u64, "gpt-5-codex").unwrap();
    }
    assert!(float_eq(guard.cumulative_total() as f64, 4500.0));
}

#[test]
fn budget_period_labels() {
    assert_eq!(BudgetPeriod::Daily.label(), "daily");
    assert_eq!(BudgetPeriod::Weekly.label(), "weekly");
    assert_eq!(BudgetPeriod::Monthly.label(), "monthly");
    assert_eq!(BudgetPeriod::labels(), ["daily", "weekly", "monthly"]);
}

#[test]
fn phase_severity_ordering() {
    assert!(phase_severity(Phase::Stable) < phase_severity(Phase::PreTransition));
    assert!(phase_severity(Phase::PreTransition) < phase_severity(Phase::Transitioning));
    assert_eq!(phase_severity(Phase::PreTransition), phase_severity(Phase::Resolving));
}

#[test]
fn float_eq_works() {
    assert!(float_eq(1.0, 1.0));
    assert!(float_eq(0.0, 0.0));
    assert!(!float_eq(1.0, 2.0));
}
