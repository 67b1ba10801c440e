use vstd::prelude::*;
use crate::action::{ActionModel, BudgetAction, BudgetError};
use crate::clock::now_millis;
use crate::config::{ladder_view, BudgetConfig};
use crate::ledger::{
    all_exhausted, conserved, lemma_index_of, drift_of, fresh_quantity, has_name, in_value_range, index_of,
    ledger_ok, phase_name, budget_phase_of, snapshot_all, spent_all, with_current, worst_phase,
    can_spend, Phase, PeriodLedger, QuantityModel, TOLERANCE_SCALE,
};
use crate::period::{lemma_labels_distinct, period_label, BudgetPeriod};

verus! {

/// A single spending record kept for history and audit.
#[derive(Debug, Clone)]
pub struct SpendingRecord {
    /// When the record was created (Unix millis).
    pub timestamp_ms: i64,
    /// Tokens consumed in this call.
    pub tokens: u64,
    /// Model slug used for this call.
    pub model: String,
}

/// What a `SpendingRecord` holds.
pub struct RecordModel {
    pub timestamp_ms: int,
    pub tokens: int,
    pub model: Seq<char>,
}

impl View for SpendingRecord {
    type V = RecordModel;

    open spec fn view(&self) -> RecordModel {
        RecordModel {
            timestamp_ms: self.timestamp_ms as int,
            tokens: self.tokens as int,
            model: self.model@,
        }
    }
}

/// Snapshot of a single budget period's state.
#[derive(Debug, Clone)]
pub struct PeriodSnapshot {
    /// Token limit (baseline) of the period.
    pub limit: i128,
    /// Tokens consumed below the baseline, never negative.
    pub consumed: i128,
    /// Remaining tokens, never negative.
    pub remaining: i128,
    /// Whether the budget is currently violated.
    pub violated: bool,
    /// Name of the consumption band (budget phase) of this period.
    pub phase: String,
    /// Change from the first to the last snapshot of the period.
    pub drift_total: i128,
    /// Number of steps between the first and the last snapshot; the drift rate
    /// (tokens per record) is `drift_total / drift_steps`, zero without steps.
    pub drift_steps: usize,
}

/// A point-in-time snapshot of all budget state, suitable for logging, audit,
/// or recovery through `BudgetGuard::from_snapshot`.
#[derive(Debug, Clone)]
pub struct BudgetSnapshot {
    /// Session identifier.
    pub session_id: String,
    /// When this snapshot was taken (Unix millis).
    pub timestamp_ms: i64,
    /// Every period, by label.
    pub periods: Vec<(String, PeriodSnapshot)>,
    /// Cumulative total tokens spent.
    pub cumulative_total: u128,
    /// Current throttle level index (0 = full speed, >0 = downgraded).
    pub throttle_level: usize,
    /// The model currently in use.
    pub active_model: String,
}

/// Whether a period snapshot describes quantity `q`.
pub open spec fn describes(ps: PeriodSnapshot, q: QuantityModel) -> bool {
    &&& ps.limit == q.initial
    &&& ps.consumed == (if q.initial - q.current > 0 { q.initial - q.current } else { 0 })
    &&& ps.remaining == (if q.current > 0 { q.current } else { 0 })
    &&& ps.violated == !conserved(q)
    &&& ps.phase@ == phase_name(budget_phase_of(q))
    &&& (ps.drift_total as int, ps.drift_steps as int) == drift_of(q)
}

/// Whether `s` is a snapshot of the guard state `m`: same session, totals,
/// throttle level and active model, and one period snapshot per ledger
/// quantity, in ledger order.
pub open spec fn snapshot_of(s: BudgetSnapshot, m: GuardModel) -> bool {
    &&& s.session_id@ == m.session_id
    &&& s.cumulative_total == m.cumulative_total
    &&& s.throttle_level == m.throttle_level
    &&& s.active_model@ == m.active_model
    &&& s.periods@.len() == m.ledger.len()
    &&& forall|i: int|
        0 <= i < s.periods@.len() ==> (#[trigger] s.periods@[i]).0@ == m.ledger[i].name
            && describes(s.periods@[i].1, m.ledger[i])
}

/// Whether `m` is the state restored from snapshot `s` under `config`: every
/// period of the snapshot registered with its limit and resumed at its
/// remaining tokens, the session, totals, throttle level and active model
/// carried over, no records yet.
pub open spec fn restored_from(m: GuardModel, s: BudgetSnapshot, config: BudgetConfig) -> bool {
    &&& m.session_id == s.session_id@
    &&& m.config == config
    &&& m.period_limits == snapshot_limits(s)
    &&& m.ledger == resumed_ledger(s, config)
    &&& m.record_count == 0
    &&& m.cumulative_total == s.cumulative_total
    &&& m.throttle_level == s.throttle_level
    &&& m.active_model == s.active_model@
    &&& m.history == Seq::<RecordModel>::empty()
}

/// Whether a snapshot can be restored: its labels are distinct and its limits
/// and remaining amounts fit the ledger's arithmetic.
pub open spec fn restorable(s: BudgetSnapshot) -> bool {
    &&& forall|i: int, j: int|
        0 <= i < s.periods@.len() && 0 <= j < s.periods@.len() && i != j ==> (
        #[trigger] s.periods@[i]).0@ != (#[trigger] s.periods@[j]).0@
    &&& forall|i: int|
        0 <= i < s.periods@.len() ==> in_value_range((#[trigger] s.periods@[i]).1.limit as int)
            && in_value_range(s.periods@[i].1.remaining as int)
}

/// The mathematical state of a `BudgetGuard`.
#[verifier::ext_equal]
pub struct GuardModel {
    pub session_id: Seq<char>,
    pub config: BudgetConfig,
    /// One conservation quantity per registered period.
    pub ledger: Seq<QuantityModel>,
    pub record_count: int,
    pub cumulative_total: int,
    pub throttle_level: int,
    pub active_model: Seq<char>,
    pub history: Seq<RecordModel>,
    /// Every registered period's label with the limit it was registered with.
    pub period_limits: Seq<(Seq<char>, int)>,
}

/// The throttle ladder of the configuration.
pub open spec fn ladder_of(m: GuardModel) -> Seq<Seq<char>> {
    ladder_view(m.config.throttle_ladder@)
}

/// One step down the ladder from `level`, never past its last rung.
pub open spec fn next_level(level: int, ladder_len: int) -> int {
    let top = if ladder_len > 0 { ladder_len - 1 } else { 0 };
    if level + 1 < top { level + 1 } else { top }
}

/// Whether the worst phase calls for throttling.
pub open spec fn throttling_phase(p: Phase) -> bool {
    p == Phase::Transitioning
}

/// Every budget window is exhausted: at least one period is registered and
/// none has tokens left. Without registered periods the budget is unlimited.
pub open spec fn halted(l: Seq<QuantityModel>) -> bool {
    l.len() > 0 && all_exhausted(l)
}

/// The action recommended in state `m`: halt when every budget window is
/// exhausted; proceed with the active model during warmup; otherwise go by the
/// worst consumption band across periods: throttle one step down the ladder in
/// the critical band (`Transitioning`, from 85% consumed), proceed with the
/// active model in the warning band (`PreTransition`, from 60%) and below it
/// (`Stable`), and proceed with the model of the current throttle level (or
/// the active model past the ladder's end) when recovering (`Resolving`).
pub open spec fn recommendation(m: GuardModel) -> ActionModel {
    let ladder = ladder_of(m);
    if halted(m.ledger) {
        ActionModel::Halt
    } else if m.record_count < m.config.warmup_records {
        ActionModel::Proceed(m.active_model)
    } else {
        match worst_phase(m.ledger) {
            Phase::Transitioning => ActionModel::Throttle(
                ladder[next_level(m.throttle_level, ladder.len() as int)],
            ),
            Phase::PreTransition => ActionModel::Proceed(m.active_model),
            Phase::Resolving => ActionModel::Proceed(
                if m.throttle_level < ladder.len() {
                    ladder[m.throttle_level]
                } else {
                    m.active_model
                },
            ),
            Phase::Stable => ActionModel::Proceed(m.active_model),
        }
    }
}

/// The states in which the recommendation cannot be computed: throttling is
/// called for but there is no ladder to step down, or the throttle level
/// cannot be incremented.
pub open spec fn recommendation_fails(m: GuardModel) -> bool {
    &&& !halted(m.ledger)
    &&& m.record_count >= m.config.warmup_records
    &&& throttling_phase(worst_phase(m.ledger))
    &&& (m.config.throttle_ladder@.len() == 0 || m.throttle_level >= usize::MAX)
}

/// The state after a call of `tokens` on `model` at `ts` was accounted, before
/// the throttle level is adjusted: counters and history grow, the model
/// becomes active, and, when periods are registered, every period loses
/// `tokens` and takes a snapshot.
pub open spec fn after_spending(m: GuardModel, tokens: int, model: Seq<char>, ts: int) -> GuardModel {
    GuardModel {
        record_count: m.record_count + 1,
        cumulative_total: m.cumulative_total + tokens,
        active_model: model,
        history: m.history.push(RecordModel { timestamp_ms: ts, tokens, model }),
        ledger: if m.ledger.len() == 0 {
            m.ledger
        } else {
            snapshot_all(spent_all(m.ledger, tokens))
        },
        ..m
    }
}

/// The state after `record(tokens, model)` at `ts`: a throttling
/// recommendation moves the throttle level one step down the ladder.
pub open spec fn after_record(m: GuardModel, tokens: int, model: Seq<char>, ts: int) -> GuardModel {
    let s = after_spending(m, tokens, model, ts);
    if m.ledger.len() > 0 && recommendation(s) is Throttle {
        GuardModel {
            throttle_level: next_level(m.throttle_level, ladder_of(m).len() as int),
            ..s
        }
    } else {
        s
    }
}

pub open spec fn has_limit(limits: Seq<(Seq<char>, int)>, label: Seq<char>) -> bool {
    exists|i: int| 0 <= i < limits.len() && (#[trigger] limits[i]).0 == label
}

/// The position of `label` among the registered limits (meaningful when `has_limit`).
pub open spec fn limit_index(limits: Seq<(Seq<char>, int)>, label: Seq<char>) -> int {
    choose|i: int| 0 <= i < limits.len() && (#[trigger] limits[i]).0 == label
}

/// The limit registered under `label` (meaningful when `has_limit`).
pub open spec fn limit_of(limits: Seq<(Seq<char>, int)>, label: Seq<char>) -> int {
    limits[limit_index(limits, label)].1
}

/// The ledger after the period `label` was reset to `limit`: its current
/// value becomes `limit`, and every period takes a snapshot.
pub open spec fn reset_ledger(l: Seq<QuantityModel>, label: Seq<char>, limit: int) -> Seq<QuantityModel> {
    let i = index_of(l, label);
    snapshot_all(l.update(i, with_current(l[i], limit)))
}

pub open spec fn limits_ok(limits: Seq<(Seq<char>, int)>, l: Seq<QuantityModel>) -> bool {
    &&& forall|i: int, j: int|
        0 <= i < limits.len() && 0 <= j < limits.len() && i != j ==> (#[trigger] limits[i]).0 != (
        #[trigger] limits[j]).0
    &&& forall|i: int|
        0 <= i < limits.len() ==> in_value_range((#[trigger] limits[i]).1) && has_name(l, limits[i].0)
            && l[index_of(l, limits[i].0)].initial == limits[i].1
}

/// Every period may overspend its own baseline by the tolerance fraction
/// `tolerance` (in millionths): its allowed decrease is
/// `initial * (TOLERANCE_SCALE + tolerance)`.
pub open spec fn tolerances_ok(l: Seq<QuantityModel>, tolerance: int) -> bool {
    forall|i: int|
        0 <= i < l.len() ==> (#[trigger] l[i]).tolerance == l[i].initial * (TOLERANCE_SCALE
            + tolerance)
}

/// A well-formed guard: a well-formed ledger; every registered limit in
/// range, registered once, tracked by the ledger and equal to its period's
/// baseline; and every period's tolerance the configured fraction of its own
/// baseline.
pub open spec fn guard_ok(m: GuardModel) -> bool {
    &&& ledger_ok(m.ledger)
    &&& limits_ok(m.period_limits, m.ledger)
    &&& tolerances_ok(m.ledger, m.config.tolerance as int)
}

/// The periods that `config` registers, in the order daily, weekly, monthly.
pub open spec fn config_limits(config: BudgetConfig) -> Seq<(Seq<char>, int)> {
    let d = match config.daily {
        Some(l) => seq![(period_label(BudgetPeriod::Daily), l as int)],
        None => Seq::empty(),
    };
    let w = match config.weekly {
        Some(l) => seq![(period_label(BudgetPeriod::Weekly), l as int)],
        None => Seq::empty(),
    };
    let mo = match config.monthly {
        Some(l) => seq![(period_label(BudgetPeriod::Monthly), l as int)],
        None => Seq::empty(),
    };
    d + w + mo
}

/// A ledger with a fresh quantity for each `(label, limit)`, whose tolerance
/// is `limit` times the configured tolerance fraction.
pub open spec fn fresh_ledger(limits: Seq<(Seq<char>, int)>, config: BudgetConfig) -> Seq<QuantityModel> {
    Seq::new(
        limits.len(),
        |i: int|
            fresh_quantity(
                limits[i].0,
                limits[i].1,
                limits[i].1 * (TOLERANCE_SCALE + config.tolerance),
            ),
    )
}

/// For each period of snapshot `s`, a quantity registered at the period's
/// limit whose current value is the snapshot's remaining tokens: what was spent
/// stays spent.
pub open spec fn resumed_ledger(s: BudgetSnapshot, config: BudgetConfig) -> Seq<QuantityModel> {
    Seq::new(
        s.periods@.len(),
        |i: int|
            with_current(
                fresh_quantity(
                    s.periods@[i].0@,
                    s.periods@[i].1.limit as int,
                    s.periods@[i].1.limit * (TOLERANCE_SCALE + config.tolerance),
                ),
                s.periods@[i].1.remaining as int,
            ),
    )
}

/// The `(label, limit)` pairs that a snapshot's periods register.
pub open spec fn snapshot_limits(s: BudgetSnapshot) -> Seq<(Seq<char>, int)> {
    Seq::new(s.periods@.len(), |i: int| (s.periods@[i].0@, s.periods@[i].1.limit as int))
}

/// Token budget enforcer for one session.
///
/// Tracks one conservation quantity per budget period, deducts every recorded
/// call from all of them, and recommends whether the next call may proceed,
/// should be throttled to a cheaper model, or must halt.
pub struct BudgetGuard {
    session_id: String,
    config: BudgetConfig,
    checker: PeriodLedger,
    record_count: usize,
    cumulative_total: u128,
    throttle_level: usize,
    active_model: String,
    history: Vec<SpendingRecord>,
    period_limits: Vec<(String, i128)>,
}

impl View for BudgetGuard {
    type V = GuardModel;

    closed spec fn view(&self) -> GuardModel {
        GuardModel {
            session_id: self.session_id@,
            config: self.config,
            ledger: self.checker@,
            record_count: self.record_count as int,
            cumulative_total: self.cumulative_total as int,
            throttle_level: self.throttle_level as int,
            active_model: self.active_model@,
            history: self.history@.map_values(|r: SpendingRecord| r@),
            period_limits: limits_view(self.period_limits@),
        }
    }
}

/// The views of registered `(label, limit)` pairs.
pub open spec fn limits_view(v: Seq<(String, i128)>) -> Seq<(Seq<char>, int)> {
    Seq::new(v.len(), |i: int| (v[i].0@, v[i].1 as int))
}

impl BudgetGuard {
    /// The guard's ledger and registered limits are consistent.
    pub open spec fn wf(&self) -> bool {
        guard_ok(self@)
    }

    /// Register `label` with `limit` in the ledger and in the list of limits.
    fn register_period(
        checker: &mut PeriodLedger,
        period_limits: &mut Vec<(String, i128)>,
        label: &str,
        limit: i128,
        config: &BudgetConfig,
    )
        requires
            old(checker).wf(),
            old(checker)@.len() == old(period_limits)@.len(),
            forall|k: int|
                0 <= k < old(period_limits)@.len() ==> (#[trigger] old(checker)@[k]).name
                    == limits_view(old(period_limits)@)[k].0,
            forall|k: int|
                0 <= k < old(period_limits)@.len() ==> (#[trigger] limits_view(
                    old(period_limits)@,
                )[k]).0 != label@,
            in_value_range(limit as int),
        ensures
            final(checker).wf(),
            limits_view(final(period_limits)@) == limits_view(old(period_limits)@).push(
                (label@, limit as int),
            ),
            final(checker)@ == old(checker)@.push(
                fresh_quantity(label@, limit as int, limit * (TOLERANCE_SCALE + config.tolerance)),
            ),
    {
        let ghost lv = limits_view(period_limits@);
        let tol = config.checker_tolerance(limit);
        proof {
            if has_name(checker@, label@) {
                let j = index_of(checker@, label@);
                assert(checker@[j].name == lv[j].0);
            }
        }
        checker.register(label, limit, tol);
        period_limits.push((label.to_owned(), limit));
        assert(limits_view(period_limits@) =~= lv.push((label@, limit as int)));
    }

    /// Create a new budget guard for a session.
    ///
    /// Registers the daily, weekly and monthly windows that `config` limits,
    /// in that order, each starting with its full allowance. The active model
    /// is the top of the ladder, or `"unknown"` without a ladder.
    pub fn new(session_id: &str, config: BudgetConfig) -> (g: BudgetGuard)
        ensures
            g.wf(),
            g@.session_id == session_id@,
            g@.config == config,
            g@.period_limits == config_limits(config),
            g@.ledger == fresh_ledger(config_limits(config), config),
            g@.record_count == 0,
            g@.cumulative_total == 0,
            g@.throttle_level == 0,
            g@.history == Seq::<RecordModel>::empty(),
            g@.active_model == (if config.throttle_ladder@.len() > 0 {
                config.throttle_ladder@[0]@
            } else {
                "unknown"@
            }),
    {
        let mut checker = PeriodLedger::new();
        let mut period_limits: Vec<(String, i128)> = Vec::new();
        let active_model = if config.throttle_ladder.len() > 0 {
            config.throttle_ladder[0].clone()
        } else {
            "unknown".to_owned()
        };
        proof {
            lemma_labels_distinct(BudgetPeriod::Daily, BudgetPeriod::Weekly);
            lemma_labels_distinct(BudgetPeriod::Daily, BudgetPeriod::Monthly);
            lemma_labels_distinct(BudgetPeriod::Weekly, BudgetPeriod::Monthly);
            assert(checker@ =~= fresh_ledger(limits_view(period_limits@), config));
        }
        let ghost d = match config.daily {
            Some(l) => seq![(period_label(BudgetPeriod::Daily), l as int)],
            None => Seq::empty(),
        };
        let ghost w = match config.weekly {
            Some(l) => seq![(period_label(BudgetPeriod::Weekly), l as int)],
            None => Seq::empty(),
        };
        if let Some(limit) = config.daily {
            Self::register_period(
                &mut checker,
                &mut period_limits,
                BudgetPeriod::Daily.label(),
                limit as i128,
                &config,
            );
            assert(checker@ =~= fresh_ledger(limits_view(period_limits@), config));
        }
        assert(limits_view(period_limits@) =~= d);
        if let Some(limit) = config.weekly {
            Self::register_period(
                &mut checker,
                &mut period_limits,
                BudgetPeriod::Weekly.label(),
                limit as i128,
                &config,
            );
            assert(checker@ =~= fresh_ledger(limits_view(period_limits@), config));
        }
        assert(limits_view(period_limits@) =~= d + w);
        if let Some(limit) = config.monthly {
            Self::register_period(
                &mut checker,
                &mut period_limits,
                BudgetPeriod::Monthly.label(),
                limit as i128,
                &config,
            );
            assert(checker@ =~= fresh_ledger(limits_view(period_limits@), config));
        }
        assert(limits_view(period_limits@) =~= config_limits(config));
        let g = BudgetGuard {
            session_id: session_id.to_owned(),
            config,
            checker,
            record_count: 0,
            cumulative_total: 0,
            throttle_level: 0,
            active_model,
            history: Vec::new(),
            period_limits,
        };
        assert(g@.history =~= Seq::<RecordModel>::empty());
        proof {
            let lv = g@.period_limits;
            assert forall|i: int| 0 <= i < lv.len() implies in_value_range((#[trigger] lv[i]).1)
                && has_name(g@.ledger, lv[i].0) by {
                assert(g@.ledger[i].name == lv[i].0);
            }
        }
        g
    }

    /// Restore a guard from a previously saved snapshot.
    ///
    /// Every period of the snapshot is registered with its limit and resumes
    /// at its remaining tokens, so what was spent stays spent; the session, the cumulative total, the throttle level and the active
    /// model carry over, while the record count and history start empty.
    pub fn from_snapshot(snapshot: BudgetSnapshot, config: BudgetConfig) -> (g: BudgetGuard)
        requires
            restorable(snapshot),
        ensures
            g.wf(),
            restored_from(g@, snapshot, config),
    {
        let mut checker = PeriodLedger::new();
        let mut period_limits: Vec<(String, i128)> = Vec::new();
        let n = snapshot.periods.len();
        let ghost sl = snapshot_limits(snapshot);
        let ghost rl = resumed_ledger(snapshot, config);
        assert(checker@ =~= rl.subrange(0, 0));
        let mut i: usize = 0;
        while i < n
            invariant
                n == snapshot.periods@.len(),
                sl == snapshot_limits(snapshot),
                rl == resumed_ledger(snapshot, config),
                i <= n,
                checker.wf(),
                limits_view(period_limits@) == sl.subrange(0, i as int),
                checker@ == rl.subrange(0, i as int),
                restorable(snapshot),
            decreases n - i,
        {
            let label = snapshot.periods[i].0.as_str();
            let limit = snapshot.periods[i].1.limit;
            let remaining = snapshot.periods[i].1.remaining;
            proof {
                assert(sl.len() == n);
                assert(limits_view(period_limits@).len() == period_limits@.len());
                assert(period_limits@.len() == i);
                assert forall|j: int|
                    0 <= j < period_limits@.len() implies (#[trigger] limits_view(
                        period_limits@,
                    )[j]).0 != label@ by {
                    assert(limits_view(period_limits@)[j] == sl[j]);
                    assert(snapshot.periods@[j].0@ != snapshot.periods@[i as int].0@);
                }
                assert forall|k: int| 0 <= k < period_limits@.len() implies (
                #[trigger] checker@[k]).name == limits_view(period_limits@)[k].0 by {
                    assert(checker@[k] == rl[k]);
                    assert(limits_view(period_limits@)[k] == sl[k]);
                }
                assert(in_value_range(snapshot.periods@[i as int].1.limit as int));
                assert(in_value_range(snapshot.periods@[i as int].1.remaining as int));
            }
            Self::register_period(&mut checker, &mut period_limits, label, limit, &config);
            proof {
                assert(checker@[i as int].name == label@);
                lemma_index_of(checker@, label@, i as int);
            }
            checker.update(label, remaining);
            assert(checker@ =~= rl.subrange(0, i as int + 1));
            assert(limits_view(period_limits@) =~= sl.subrange(0, i as int + 1));
            i += 1;
        }
        assert(sl.subrange(0, n as int) =~= sl);
        assert(rl.subrange(0, n as int) =~= rl);
        let g = BudgetGuard {
            session_id: snapshot.session_id,
            config,
            checker,
            record_count: 0,
            cumulative_total: snapshot.cumulative_total,
            throttle_level: snapshot.throttle_level,
            active_model: snapshot.active_model,
            history: Vec::new(),
            period_limits,
        };
        assert(g@.history =~= Seq::<RecordModel>::empty());
        proof {
            let lv = g@.period_limits;
            assert forall|a: int| 0 <= a < lv.len() implies in_value_range((#[trigger] lv[a]).1)
                && has_name(g@.ledger, lv[a].0) by {
                assert(lv[a] == sl[a]);
                assert(g@.ledger[a] == rl[a]);
                assert(g@.ledger[a].name == lv[a].0);
            }
            assert forall|a: int, b: int|
                0 <= a < lv.len() && 0 <= b < lv.len() && a != b implies (#[trigger] lv[a]).0 != (
                #[trigger] lv[b]).0 by {
                assert(lv[a] == sl[a] && lv[b] == sl[b]);
                assert(snapshot.periods@[a].0@ != snapshot.periods@[b].0@);
            }
        }
        g
    }

    /// The recommended action for the next API call.
    ///
    /// Halts when every budget window is exhausted, proceeds with the active
    /// model during warmup, and otherwise goes by the worst consumption band
    /// across periods, throttling only in the critical band.
    pub fn recommend_action(&self) -> (a: BudgetAction)
        requires
            self.wf(),
            !recommendation_fails(self@),
        ensures
            a@ == recommendation(self@),
    {
        if !self.checker.is_empty() && self.checker.all_exhausted() {
            return BudgetAction::Halt;
        }
        if self.record_count < self.config.warmup_records {
            return BudgetAction::Proceed(self.active_model.clone());
        }
        let ladder = &self.config.throttle_ladder;
        let len = ladder.len();
        let ghost lv = ladder_view(ladder@);
        match self.checker.worst_phase() {
            Phase::Transitioning => {
                let top = if len > 0 { len - 1 } else { 0 };
                let level = if self.throttle_level + 1 < top {
                    self.throttle_level + 1
                } else {
                    top
                };
                assert(lv[level as int] == ladder@[level as int]@);
                BudgetAction::Throttle(ladder[level].clone())
            },
            Phase::Resolving => {
                if self.throttle_level < len {
                    assert(lv[self.throttle_level as int] == ladder@[self.throttle_level as int]@);
                    BudgetAction::Proceed(ladder[self.throttle_level].clone())
                } else {
                    BudgetAction::Proceed(self.active_model.clone())
                }
            },
            Phase::PreTransition | Phase::Stable => BudgetAction::Proceed(self.active_model.clone()),
        }
    }

    /// Record token usage for an API call and return the recommendation.
    ///
    /// The call is counted, added to the cumulative total and the history,
    /// and its model becomes the active one. Without registered periods the
    /// result is `NotRegistered("no budget periods")`. Otherwise every period
    /// loses `tokens` and takes a snapshot, the recommendation is computed,
    /// and a `Throttle` recommendation moves the throttle level one step down
    /// the ladder.
    pub fn record(&mut self, tokens: u64, model: &str) -> (r: Result<BudgetAction, BudgetError>)
        requires
            old(self).wf(),
            old(self)@.record_count < usize::MAX,
            old(self)@.cumulative_total + tokens <= u128::MAX,
            can_spend(old(self)@.ledger, tokens as int),
            !recommendation_fails(after_spending(old(self)@, tokens as int, model@, 0)),
        ensures
            final(self).wf(),
            final(self)@.history.len() == old(self)@.history.len() + 1,
            final(self)@ == after_record(
                old(self)@,
                tokens as int,
                model@,
                final(self)@.history.last().timestamp_ms,
            ),
            old(self)@.ledger.len() == 0 ==> (r matches Err(BudgetError::NotRegistered(s)) && s@
                == "no budget periods"@),
            old(self)@.ledger.len() > 0 ==> (r matches Ok(a) && a@ == recommendation(
                after_spending(
                    old(self)@,
                    tokens as int,
                    model@,
                    final(self)@.history.last().timestamp_ms,
                ),
            )),
    {
        let ghost old_view = self@;
        let now_ms = now_millis();
        let ghost after = after_spending(old_view, tokens as int, model@, now_ms as int);
        self.record_count = self.record_count + 1;
        self.cumulative_total = self.cumulative_total + tokens as u128;
        self.active_model = model.to_owned();
        let ghost old_hist = self.history@;
        self.history.push(SpendingRecord { timestamp_ms: now_ms, tokens, model: model.to_owned() });
        assert(self@.history =~= old_view.history.push(
            RecordModel { timestamp_ms: now_ms as int, tokens: tokens as int, model: model@ },
        ));
        if self.checker.is_empty() {
            assert(self@ =~= after);
            return Err(BudgetError::NotRegistered("no budget periods".to_owned()));
        }
        self.checker.spend(tokens);
        self.checker.snapshot();
        assert(self@ =~= after);
        assert(self@.ledger =~= snapshot_all(spent_all(old_view.ledger, tokens as int)));
        proof {
            assert(recommendation_fails(after) == recommendation_fails(
                after_spending(old_view, tokens as int, model@, 0),
            ));
            assert(guard_ok(self@)) by {
                let lv = self@.period_limits;
                assert forall|a: int| 0 <= a < lv.len() implies in_value_range(
                    (#[trigger] lv[a]).1,
                ) && has_name(self@.ledger, lv[a].0) by {
                    assert(has_name(old_view.ledger, lv[a].0));
                    let j = index_of(old_view.ledger, lv[a].0);
                    assert(self@.ledger[j].name == old_view.ledger[j].name);
                }
            }
        }
        let action = self.recommend_action();
        if let BudgetAction::Throttle(_) = &action {
            let len = self.config.throttle_ladder.len();
            let top = if len > 0 { len - 1 } else { 0 };
            self.throttle_level = if self.throttle_level + 1 < top {
                self.throttle_level + 1
            } else {
                top
            };
        }
        Ok(action)
    }

    /// Reset a budget period to its full allowance.
    ///
    /// The period's current value becomes the limit it was registered with
    /// (its baseline stays that limit), and every period takes a snapshot. A period that was never registered is an error and nothing
    /// changes.
    pub fn reset_period(&mut self, period: BudgetPeriod) -> (r: Result<(), BudgetError>)
        requires
            old(self).wf(),
        ensures
            final(self).wf(),
            r is Ok <==> has_limit(old(self)@.period_limits, period_label(period)),
            r is Err ==> final(self)@ == old(self)@ && (r matches Err(BudgetError::NotRegistered(s))
                && s@ == period_label(period)),
            r is Ok ==> final(self)@ == (GuardModel {
                ledger: reset_ledger(
                    old(self)@.ledger,
                    period_label(period),
                    limit_of(old(self)@.period_limits, period_label(period)),
                ),
                ..old(self)@
            }),
    {
        let ghost old_view = self@;
        let label = period.label();
        let key = label.to_owned();
        let n = self.period_limits.len();
        let mut i: usize = 0;
        while i < n
            invariant
                n == self.period_limits@.len(),
                i <= n,
                self@ == old_view,
                guard_ok(old_view),
                old_view == old(self)@,
                key@ == period_label(period),
                label@ == period_label(period),
                forall|j: int| 0 <= j < i ==> (#[trigger] old_view.period_limits[j]).0 != key@,
            decreases n - i,
        {
            assert(old_view.period_limits[i as int].0 == self.period_limits@[i as int].0@);
            let found = self.period_limits[i].0 == key;
            assert(found == (self.period_limits@[i as int].0@ == key@));
            if found {
                let limit = self.period_limits[i].1;
                let ghost lv = old_view.period_limits;
                proof {
                    assert(has_limit(lv, key@));
                    let k = limit_index(lv, key@);
                    if k != i {
                        assert(lv[k].0 != lv[i as int].0);
                    }
                    assert(limit_of(lv, key@) == limit);
                    assert(in_value_range(lv[i as int].1));
                    assert(lv[i as int].0 == label@);
                    assert(self@.ledger == self.checker@);
                    assert(has_name(self.checker@, label@));
                }
                self.checker.update(label, limit);
                self.checker.snapshot();
                proof {
                    let j = index_of(old_view.ledger, label@);
                    assert(self@.ledger =~= reset_ledger(old_view.ledger, label@, limit as int));
                    assert(self@ =~= GuardModel {
                        ledger: reset_ledger(old_view.ledger, label@, limit as int),
                        ..old_view
                    });
                    assert(guard_ok(self@)) by {
                        let lv = self@.period_limits;
                        assert forall|a: int| 0 <= a < lv.len() implies in_value_range(
                            (#[trigger] lv[a]).1,
                        ) && has_name(self@.ledger, lv[a].0) by {
                            assert(has_name(old_view.ledger, lv[a].0));
                            let b = index_of(old_view.ledger, lv[a].0);
                            assert(self@.ledger[b].name == old_view.ledger[b].name);
                        }
                    }
                }
                return Ok(());
            }
            i += 1;
        }
        assert(!has_limit(old_view.period_limits, period_label(period)));
        Err(BudgetError::NotRegistered(key))
    }

    /// A point-in-time snapshot of all budget state.
    pub fn snapshot(&self) -> (s: BudgetSnapshot)
        requires
            self.wf(),
        ensures
            snapshot_of(s, self@),
    {
        BudgetSnapshot {
            session_id: self.session_id.clone(),
            timestamp_ms: now_millis(),
            periods: self.checker.period_snapshots(),
            cumulative_total: self.cumulative_total,
            throttle_level: self.throttle_level,
            active_model: self.active_model.clone(),
        }
    }

    /// The ledger of the budget periods, for detailed queries.
    pub fn checker(&self) -> (l: &PeriodLedger)
        ensures
            l@ == self@.ledger,
    {
        &self.checker
    }

    /// Mutable access to the ledger, for tests. Whatever is done through it
    /// becomes the guard's ledger; the guard is well-formed afterwards only if
    /// the ledger still tracks every registered period.
    pub fn checker_mut(&mut self) -> (l: &mut PeriodLedger)
        ensures
            l@ == old(self)@.ledger,
            final(self)@ == (GuardModel { ledger: final(l)@, ..old(self)@ }),
    {
        &mut self.checker
    }

    /// Total tokens recorded.
    pub fn cumulative_total(&self) -> (t: u128)
        ensures
            t == self@.cumulative_total,
    {
        self.cumulative_total
    }

    /// Number of `record()` calls made so far.
    pub fn record_count(&self) -> (n: usize)
        ensures
            n == self@.record_count,
    {
        self.record_count
    }

    /// Current throttle level (0 = no throttle, 1+ = downgraded).
    pub fn throttle_level(&self) -> (n: usize)
        ensures
            n == self@.throttle_level,
    {
        self.throttle_level
    }

    /// Spending history, oldest first.
    pub fn history(&self) -> (h: &[SpendingRecord])
        ensures
            h@.len() == self@.history.len(),
            forall|i: int| 0 <= i < h@.len() ==> (#[trigger] h@[i])@ == self@.history[i],
    {
        self.history.as_slice()
    }

    /// The active model slug.
    pub fn active_model(&self) -> (m: &str)
        ensures
            m@ == self@.active_model,
    {
        self.active_model.as_str()
    }
}

} // verus!
