use vstd::prelude::*;
use crate::action::ActionModel;
use crate::config::BudgetConfig;
use crate::guard::{
    config_limits, fresh_ledger, after_record, after_spending, describes, guard_ok, halted, has_limit, ladder_of, limit_index,
    limit_of, next_level, recommendation, recommendation_fails, reset_ledger, restorable,
    restored_from, snapshot_of, GuardModel, RecordModel,
};
use crate::guard::BudgetSnapshot;
use crate::period::{lemma_labels_distinct, period_label, BudgetPeriod};
use crate::ledger::{
    budget_phase_of, conserved, fresh_quantity, has_name, index_of, lemma_index_of, ledger_ok,
    phase_of, quantity_ok, severity, with_current, worst_phase, Phase, QuantityModel,
    CRITICAL_PERCENT, TOLERANCE_SCALE, WARNING_PERCENT,
};

verus! {

/// The last rung of a ladder of `len` models (0 for an empty ladder).
pub open spec fn top_level(len: int) -> int {
    if len > 0 { len - 1 } else { 0 }
}

/// Total tokens of a spending history.
pub open spec fn history_tokens(h: Seq<RecordModel>) -> int
    decreases h.len(),
{
    if h.len() == 0 { 0 } else { history_tokens(h.drop_last()) + h.last().tokens }
}

/// The guard halts exactly when at least one period is registered and every
/// registered period is exhausted; a single period with tokens left keeps it
/// from halting.
pub proof fn law_halt_iff_all_exhausted(m: GuardModel)
    ensures
        (recommendation(m) is Halt) <==> halted(m.ledger),
{
}

/// A guard without limits (no period registered) has an unlimited budget: it
/// never halts and proceeds with the active model.
pub proof fn law_unlimited_budget_proceeds(m: GuardModel)
    requires
        m.ledger.len() == 0,
    ensures
        recommendation(m) == ActionModel::Proceed(m.active_model),
{
}

/// The worst phase of a non-empty ledger is the budget phase of one of its
/// periods, and no period's budget phase is more severe.
pub proof fn lemma_worst_phase(l: Seq<QuantityModel>)
    requires
        l.len() > 0,
    ensures
        exists|i: int| 0 <= i < l.len() && worst_phase(l) == budget_phase_of(#[trigger] l[i]),
        forall|i: int|
            0 <= i < l.len() ==> severity(budget_phase_of(#[trigger] l[i])) <= severity(
                worst_phase(l),
            ),
    decreases l.len(),
{
    if l.len() == 1 {
        assert(worst_phase(l) == budget_phase_of(l[0]));
    } else {
        let p = l.drop_last();
        lemma_worst_phase(p);
        assert forall|i: int| 0 <= i < p.len() implies #[trigger] p[i] == l[i] by {}
        let k = choose|i: int| 0 <= i < p.len() && worst_phase(p) == budget_phase_of(#[trigger] p[i]);
        if severity(budget_phase_of(l.last())) >= severity(worst_phase(p)) {
            assert(worst_phase(l) == budget_phase_of(l[l.len() - 1]));
        } else {
            assert(worst_phase(l) == budget_phase_of(l[k]));
        }
        assert forall|i: int| 0 <= i < l.len() implies severity(budget_phase_of(#[trigger] l[i]))
            <= severity(worst_phase(l)) by {
            if i < p.len() {
                assert(severity(budget_phase_of(p[i])) <= severity(worst_phase(p)));
            }
        }
    }
}

/// While every period has consumed less than 60% of its limit, the guard
/// proceeds with the active model: it neither throttles nor halts.
pub proof fn law_below_warning_band_proceeds(m: GuardModel)
    requires
        forall|i: int|
            0 <= i < m.ledger.len() ==> 0 <= (#[trigger] m.ledger[i]).initial && (
            m.ledger[i].initial - m.ledger[i].current) * 100 < WARNING_PERCENT
                * m.ledger[i].initial,
    ensures
        recommendation(m) == ActionModel::Proceed(m.active_model),
{
    if m.ledger.len() > 0 {
        lemma_worst_phase(m.ledger);
        assert(m.ledger[0].current > 0);
        assert(!halted(m.ledger));
        let k = choose|i: int|
            0 <= i < m.ledger.len() && worst_phase(m.ledger) == budget_phase_of(
                #[trigger] m.ledger[i],
            );
        assert(budget_phase_of(m.ledger[k]) == Phase::Stable);
    }
}

/// The guard throttles only when some period has consumed at least 85% of its
/// limit (the critical band).
pub proof fn law_throttle_only_in_critical_band(m: GuardModel)
    requires
        recommendation(m) is Throttle,
    ensures
        exists|i: int|
            0 <= i < m.ledger.len() && ((#[trigger] m.ledger[i]).initial - m.ledger[i].current)
                * 100 >= CRITICAL_PERCENT * m.ledger[i].initial,
{
    if m.ledger.len() == 0 {
        assert(worst_phase(m.ledger) == Phase::Stable);
    } else {
        lemma_worst_phase(m.ledger);
        let k = choose|i: int|
            0 <= i < m.ledger.len() && worst_phase(m.ledger) == budget_phase_of(
                #[trigger] m.ledger[i],
            );
        assert(budget_phase_of(m.ledger[k]) == Phase::Transitioning);
    }
}

/// A period registered at `limit` with tolerance fraction `t` (in millionths)
/// stays conserved while at most the limit plus `t` of it has been spent:
/// the tolerance is an allowed overshoot of the limit.
pub proof fn law_tolerance_allows_overshoot(name: Seq<char>, limit: int, t: int, spent: int)
    ensures
        conserved(
            with_current(
                fresh_quantity(name, limit, limit * (TOLERANCE_SCALE + t)),
                limit - spent,
            ),
        ) <==> spent * TOLERANCE_SCALE <= limit * (TOLERANCE_SCALE + t),
{
}

/// During warmup a guard that is not halted proceeds with the active model.
pub proof fn law_warmup_proceeds(m: GuardModel)
    requires
        !halted(m.ledger),
        m.record_count < m.config.warmup_records,
    ensures
        recommendation(m) == ActionModel::Proceed(m.active_model),
{
}

/// Once every period is exhausted, recording more spending keeps the guard
/// halted: `record` returns `Halt`, the next recommendation is `Halt`, and the
/// throttle level does not move.
pub proof fn law_exhaustion_persists(m: GuardModel, tokens: int, model: Seq<char>, ts: int)
    requires
        tokens >= 0,
        halted(m.ledger),
    ensures
        halted(after_record(m, tokens, model, ts).ledger),
        recommendation(after_spending(m, tokens, model, ts)) is Halt,
        recommendation(after_record(m, tokens, model, ts)) is Halt,
        after_record(m, tokens, model, ts).throttle_level == m.throttle_level,
{
    let s = after_spending(m, tokens, model, ts);
    assert forall|i: int| 0 <= i < s.ledger.len() implies (#[trigger] s.ledger[i]).current <= 0 by {
        if m.ledger.len() > 0 {
            assert(m.ledger[i].current <= 0);
        }
    }
}

/// Every record deducts the same number of tokens from every registered
/// period and appends the new remaining amount to its history; names,
/// baselines and tolerances stay, so periods are tracked independently.
pub proof fn law_record_deducts_every_period(
    m: GuardModel,
    tokens: int,
    model: Seq<char>,
    ts: int,
)
    requires
        m.ledger.len() > 0,
    ensures
        after_record(m, tokens, model, ts).period_limits == m.period_limits,
        after_record(m, tokens, model, ts).config == m.config,
        after_record(m, tokens, model, ts).ledger.len() == m.ledger.len(),
        forall|i: int|
            0 <= i < m.ledger.len() ==> {
                let q = #[trigger] after_record(m, tokens, model, ts).ledger[i];
                &&& q.name == m.ledger[i].name
                &&& q.initial == m.ledger[i].initial
                &&& q.tolerance == m.ledger[i].tolerance
                &&& q.current == m.ledger[i].current - tokens
                &&& q.history == m.ledger[i].history.push(m.ledger[i].current - tokens)
            },
{
}

/// The history is append-only and chronological: recording keeps every
/// earlier record and appends one record of the call's tokens and model.
pub proof fn law_history_appends(m: GuardModel, tokens: int, model: Seq<char>, ts: int)
    ensures
        after_record(m, tokens, model, ts).history.subrange(0, m.history.len() as int)
            == m.history,
        after_record(m, tokens, model, ts).history.last() == (RecordModel {
            timestamp_ms: ts,
            tokens,
            model,
        }),
        after_record(m, tokens, model, ts).active_model == model,
{
    assert(after_record(m, tokens, model, ts).history.subrange(0, m.history.len() as int)
        =~= m.history);
}

/// The cumulative total differs from the tokens of the history by an amount
/// that recording never changes; a guard made by `new` starts with both at
/// zero, so its cumulative total is always the sum of its history.
pub proof fn law_cumulative_tracks_history(m: GuardModel, tokens: int, model: Seq<char>, ts: int)
    ensures
        after_record(m, tokens, model, ts).cumulative_total - history_tokens(
            after_record(m, tokens, model, ts).history,
        ) == m.cumulative_total - history_tokens(m.history),
        after_record(m, tokens, model, ts).record_count == m.record_count + 1,
        after_record(m, tokens, model, ts).history.len() == m.history.len() + 1,
{
    let a = after_record(m, tokens, model, ts);
    assert(a.history.drop_last() =~= m.history);
}

/// The throttle level never passes the last rung of the ladder, and recording
/// never lowers it; a guard made by `new` starts at level 0.
pub proof fn law_throttle_level_bounded(m: GuardModel, tokens: int, model: Seq<char>, ts: int)
    requires
        0 <= m.throttle_level <= top_level(ladder_of(m).len() as int),
    ensures
        m.throttle_level <= after_record(m, tokens, model, ts).throttle_level <= top_level(
            ladder_of(m).len() as int,
        ),
        ladder_of(after_record(m, tokens, model, ts)) == ladder_of(m),
{
}

/// A `Throttle` recommendation names the model one rung below the current
/// throttle level (never past the last rung).
pub proof fn law_throttle_names_next_rung(m: GuardModel)
    requires
        0 <= m.throttle_level,
        !recommendation_fails(m),
        recommendation(m) is Throttle,
    ensures
        0 <= next_level(m.throttle_level, ladder_of(m).len() as int) < ladder_of(m).len(),
        recommendation(m) == ActionModel::Throttle(
            ladder_of(m)[next_level(m.throttle_level, ladder_of(m).len() as int)],
        ),
{
}

/// Resetting a registered period restores its registered limit as its
/// current amount and keeps its baseline; every other period keeps its
/// amounts; every period takes one snapshot; and, when the limit is positive,
/// a halt is lifted.
pub proof fn law_reset_restores_allowance(m: GuardModel, label: Seq<char>)
    requires
        guard_ok(m),
        has_limit(m.period_limits, label),
    ensures
        ({
            let l = reset_ledger(m.ledger, label, limit_of(m.period_limits, label));
            &&& l.len() == m.ledger.len()
            &&& has_name(l, label)
            &&& l[index_of(l, label)].current == limit_of(m.period_limits, label)
            &&& l[index_of(l, label)].current == m.ledger[index_of(m.ledger, label)].initial
            &&& l[index_of(l, label)].initial == m.ledger[index_of(m.ledger, label)].initial
            &&& forall|j: int| 0 <= j < l.len() ==> {
                &&& (#[trigger] l[j]).name == m.ledger[j].name
                &&& l[j].history == m.ledger[j].history.push(l[j].current)
                &&& j != index_of(l, label) ==> l[j].current == m.ledger[j].current
                    && l[j].initial == m.ledger[j].initial
            }
            &&& limit_of(m.period_limits, label) > 0 ==> !(recommendation(
                GuardModel { ledger: l, ..m },
            ) is Halt)
        }),
{
    let k = limit_index(m.period_limits, label);
    assert(has_name(m.ledger, m.period_limits[k].0));
    let i = index_of(m.ledger, label);
    let l = reset_ledger(m.ledger, label, limit_of(m.period_limits, label));
    assert(l[i].name == label);
    assert(ledger_ok(m.ledger));
    assert forall|a: int, b: int|
        0 <= a < l.len() && 0 <= b < l.len() && a != b implies (#[trigger] l[a]).name != (
        #[trigger] l[b]).name by {
        assert(m.ledger[a].name != m.ledger[b].name);
    }
    lemma_index_of(l, label, i);
    if limit_of(m.period_limits, label) > 0 {
        assert(l[i].current > 0);
    }
}

/// A snapshot of a well-formed guard can always be restored, and restoring it
/// keeps the session, the cumulative total, the throttle level, the active
/// model and every period with its baseline; each period resumes at the
/// tokens it had left (none, if it was overspent), so spent tokens stay spent
/// and a period that had tokens left is in the same consumption band.
pub proof fn law_snapshot_roundtrip(
    m: GuardModel,
    s: BudgetSnapshot,
    config: BudgetConfig,
    r: GuardModel,
)
    requires
        guard_ok(m),
        snapshot_of(s, m),
        restored_from(r, s, config),
    ensures
        restorable(s),
        r.period_limits.len() == m.ledger.len(),
        forall|i: int|
            0 <= i < r.period_limits.len() ==> #[trigger] r.period_limits[i] == (
                m.ledger[i].name,
                m.ledger[i].initial,
            ) && r.period_limits[i] == (s.periods@[i].0@, s.periods@[i].1.limit as int),
        forall|i: int|
            0 <= i < r.ledger.len() ==> (#[trigger] r.ledger[i]).tolerance == m.ledger[i].initial
                * (TOLERANCE_SCALE + config.tolerance),
        config.tolerance == m.config.tolerance ==> forall|i: int|
            0 <= i < r.ledger.len() ==> (#[trigger] r.ledger[i]).tolerance == m.ledger[i].tolerance
                && (m.ledger[i].current >= 0 ==> conserved(r.ledger[i]) == conserved(
                m.ledger[i],
            )),
        r.session_id == m.session_id,
        r.cumulative_total == m.cumulative_total,
        r.throttle_level == m.throttle_level,
        r.active_model == m.active_model,
        r.ledger.len() == m.ledger.len(),
        forall|i: int|
            0 <= i < r.ledger.len() ==> {
                let q = #[trigger] r.ledger[i];
                &&& q.name == m.ledger[i].name
                &&& q.initial == m.ledger[i].initial
                &&& q.current == (if m.ledger[i].current > 0 { m.ledger[i].current } else { 0 })
                &&& m.ledger[i].current >= 0 ==> budget_phase_of(q) == budget_phase_of(
                    m.ledger[i],
                )
            },
{
    assert forall|i: int, j: int|
        0 <= i < s.periods@.len() && 0 <= j < s.periods@.len() && i != j implies (
        #[trigger] s.periods@[i]).0@ != (#[trigger] s.periods@[j]).0@ by {
        assert(m.ledger[i].name != m.ledger[j].name);
    }
    assert forall|i: int| 0 <= i < s.periods@.len() implies crate::ledger::in_value_range(
        (#[trigger] s.periods@[i]).1.limit as int,
    ) && crate::ledger::in_value_range(s.periods@[i].1.remaining as int) by {
        assert(quantity_ok(m.ledger[i]));
        assert(describes(s.periods@[i].1, m.ledger[i]));
    }
    assert forall|i: int| 0 <= i < r.ledger.len() implies ({
        let q = #[trigger] r.ledger[i];
        &&& q.name == m.ledger[i].name
        &&& q.initial == m.ledger[i].initial
        &&& q.current == (if m.ledger[i].current > 0 { m.ledger[i].current } else { 0 })
        &&& m.ledger[i].current >= 0 ==> budget_phase_of(q) == budget_phase_of(m.ledger[i])
    }) by {
        assert(describes(s.periods@[i].1, m.ledger[i]));
    }
    assert forall|i: int| 0 <= i < r.period_limits.len() implies #[trigger] r.period_limits[i] == (
        m.ledger[i].name,
        m.ledger[i].initial,
    ) && r.period_limits[i] == (s.periods@[i].0@, s.periods@[i].1.limit as int) by {
        assert(describes(s.periods@[i].1, m.ledger[i]));
    }
    assert forall|i: int| 0 <= i < r.ledger.len() implies (#[trigger] r.ledger[i]).tolerance
        == m.ledger[i].initial * (TOLERANCE_SCALE + config.tolerance) by {
        assert(describes(s.periods@[i].1, m.ledger[i]));
    }
}

/// A snapshot reports every period's unclamped consumption: the limit is the
/// period's baseline, consumed is the baseline minus the current value (never
/// negative) and remaining is the current value (never negative). In
/// particular an overspent period reports more consumed tokens than its limit
/// (its overspend stays in the audit), and whenever the period has not gone
/// above its baseline, consumed is exactly the baseline minus its current value.
pub proof fn law_snapshot_reports_consumption(s: BudgetSnapshot, m: GuardModel)
    requires
        snapshot_of(s, m),
    ensures
        s.periods@.len() == m.ledger.len(),
        forall|i: int|
            0 <= i < s.periods@.len() ==> {
                let ps = (#[trigger] s.periods@[i]).1;
                let q = m.ledger[i];
                &&& ps.limit == q.initial
                &&& ps.remaining >= 0 && ps.consumed >= 0
                &&& q.current >= 0 ==> ps.remaining == q.current
                &&& q.current < 0 ==> ps.remaining == 0
                &&& q.current <= q.initial ==> ps.consumed == q.initial - q.current
                &&& q.current > q.initial ==> ps.consumed == 0
                &&& q.current < 0 && q.initial >= 0 ==> ps.consumed > ps.limit
                &&& 0 <= q.current <= q.initial ==> ps.consumed + ps.remaining == ps.limit
                &&& ps.violated == !conserved(q)
                &&& (q.initial - q.current) * 100 >= CRITICAL_PERCENT * q.initial ==> ps.phase@
                    == "Transitioning"@
                &&& WARNING_PERCENT * q.initial <= (q.initial - q.current) * 100
                    < CRITICAL_PERCENT * q.initial ==> ps.phase@ == "PreTransition"@
                &&& q.initial >= 0 && (q.initial - q.current) * 100 < WARNING_PERCENT * q.initial
                    ==> ps.phase@ == "Stable"@
                &&& ps.drift_total == q.history.last() - q.history[0]
                &&& ps.drift_steps == q.history.len() - 1
            },
{
    assert forall|i: int| 0 <= i < s.periods@.len() implies {
        let ps = (#[trigger] s.periods@[i]).1;
        let q = m.ledger[i];
        &&& ps.limit == q.initial
        &&& ps.remaining >= 0 && ps.consumed >= 0
        &&& q.current >= 0 ==> ps.remaining == q.current
        &&& q.current < 0 ==> ps.remaining == 0
        &&& q.current <= q.initial ==> ps.consumed == q.initial - q.current
        &&& q.current > q.initial ==> ps.consumed == 0
        &&& q.current < 0 && q.initial >= 0 ==> ps.consumed > ps.limit
        &&& 0 <= q.current <= q.initial ==> ps.consumed + ps.remaining == ps.limit
        &&& ps.violated == !conserved(q)
        &&& (q.initial - q.current) * 100 >= CRITICAL_PERCENT * q.initial ==> ps.phase@
            == "Transitioning"@
        &&& WARNING_PERCENT * q.initial <= (q.initial - q.current) * 100
            < CRITICAL_PERCENT * q.initial ==> ps.phase@ == "PreTransition"@
        &&& q.initial >= 0 && (q.initial - q.current) * 100 < WARNING_PERCENT * q.initial
            ==> ps.phase@ == "Stable"@
        &&& ps.drift_total == q.history.last() - q.history[0]
        &&& ps.drift_steps == q.history.len() - 1
    } by {
        assert(describes(s.periods@[i].1, m.ledger[i]));
    }
}

/// Unless the guard halts, it proceeds with the active (requested) model
/// whenever every period is below the critical band (less than 85% of its
/// limit consumed), the warning band included: only the critical band
/// throttles.
pub proof fn law_below_critical_band_proceeds(m: GuardModel)
    requires
        !halted(m.ledger),
        forall|i: int|
            0 <= i < m.ledger.len() ==> ((#[trigger] m.ledger[i]).initial - m.ledger[i].current)
                * 100 < CRITICAL_PERCENT * m.ledger[i].initial,
    ensures
        recommendation(m) == ActionModel::Proceed(m.active_model),
{
    if m.ledger.len() > 0 {
        lemma_worst_phase(m.ledger);
        let k = choose|i: int|
            0 <= i < m.ledger.len() && worst_phase(m.ledger) == budget_phase_of(
                #[trigger] m.ledger[i],
            );
        assert(budget_phase_of(m.ledger[k]) != Phase::Transitioning);
    }
}

/// A record that leaves some period with tokens and every period below the
/// critical band answers `Proceed` with the model the call was made with,
/// and leaves the throttle level as it was.
pub proof fn law_record_below_critical_band_proceeds_with_requested_model(
    m: GuardModel,
    tokens: int,
    model: Seq<char>,
    ts: int,
)
    requires
        m.ledger.len() > 0,
        exists|i: int| 0 <= i < m.ledger.len() && (#[trigger] m.ledger[i]).current - tokens > 0,
        forall|i: int|
            0 <= i < m.ledger.len() ==> ((#[trigger] m.ledger[i]).initial - (m.ledger[i].current
                - tokens)) * 100 < CRITICAL_PERCENT * m.ledger[i].initial,
    ensures
        recommendation(after_spending(m, tokens, model, ts)) == ActionModel::Proceed(model),
        after_record(m, tokens, model, ts).throttle_level == m.throttle_level,
{
    let a = after_spending(m, tokens, model, ts);
    let k = choose|i: int| 0 <= i < m.ledger.len() && (#[trigger] m.ledger[i]).current - tokens > 0;
    assert(a.ledger[k].current > 0);
    assert forall|i: int| 0 <= i < a.ledger.len() implies ((#[trigger] a.ledger[i]).initial
        - a.ledger[i].current) * 100 < CRITICAL_PERCENT * a.ledger[i].initial by {
        assert(m.ledger[i].current - tokens == a.ledger[i].current);
    }
    law_below_critical_band_proceeds(a);
}

/// In a snapshot of a period that has not overspent its baseline, consumed
/// and remaining tokens add up to the limit.
pub proof fn law_snapshot_accounting(ps: crate::guard::PeriodSnapshot, q: QuantityModel)
    requires
        describes(ps, q),
        0 <= q.current <= q.initial,
    ensures
        ps.consumed + ps.remaining == ps.limit,
{
}

/// Phase severities are ordered `Stable` < `PreTransition` = `Resolving` <
/// `Transitioning`.
pub proof fn law_severity_order()
    ensures
        severity(Phase::Stable) < severity(Phase::PreTransition),
        severity(Phase::PreTransition) == severity(Phase::Resolving),
        severity(Phase::Resolving) < severity(Phase::Transitioning),
{
}

/// A quantity with fewer than three snapshots is `Stable`.
pub proof fn law_short_history_is_stable(q: QuantityModel)
    requires
        q.history.len() < 3,
    ensures
        phase_of(q) == Phase::Stable,
{
}

/// Conservation is one-sided: a quantity at or above its baseline is always
/// conserved (for a non-negative tolerance), while with zero tolerance any
/// decrease below the baseline is a violation.
pub proof fn law_conservation_is_one_sided(q: QuantityModel)
    ensures
        q.tolerance >= 0 && q.current >= q.initial ==> conserved(q),
        q.tolerance == 0 && q.current < q.initial ==> !conserved(q),
{
}

/// The limit that `config` sets for period `p`, if any.
pub open spec fn configured_limit(config: BudgetConfig, p: BudgetPeriod) -> Option<u64> {
    match p {
        BudgetPeriod::Daily => config.daily,
        BudgetPeriod::Weekly => config.weekly,
        BudgetPeriod::Monthly => config.monthly,
    }
}

/// A new guard tracks exactly the configured periods. Each starts full at its
/// own limit, with the tolerance fraction applied to that limit alone, so it
/// stays within budget while no more than its own limit plus that fraction of
/// it has been spent.
pub proof fn law_new_registers_each_period(config: BudgetConfig, m: GuardModel, p: BudgetPeriod)
    requires
        m.config == config,
        m.ledger == fresh_ledger(config_limits(config), config),
        m.period_limits == config_limits(config),
    ensures
        configured_limit(config, p) is None <==> !has_limit(m.period_limits, period_label(p)),
        configured_limit(config, p) matches Some(limit) ==> limit_of(m.period_limits, period_label(p))
            == limit,
        forall|i: int|
            0 <= i < m.ledger.len() ==> (#[trigger] m.ledger[i]).tolerance == m.ledger[i].initial
                * (TOLERANCE_SCALE + config.tolerance) && m.ledger[i].current == m.ledger[i].initial,
        configured_limit(config, p) is None ==> !has_name(m.ledger, period_label(p)),
        configured_limit(config, p) matches Some(limit) ==> {
            let q = m.ledger[index_of(m.ledger, period_label(p))];
            &&& has_name(m.ledger, period_label(p))
            &&& q.initial == limit
            &&& q.current == limit
            &&& q.tolerance == limit * (TOLERANCE_SCALE + config.tolerance)
            &&& forall|spent: int|
                0 <= spent && spent * TOLERANCE_SCALE <= limit * (TOLERANCE_SCALE
                    + config.tolerance) ==> #[trigger] conserved(with_current(q, limit - spent))
        },
{
    lemma_labels_distinct(BudgetPeriod::Daily, BudgetPeriod::Weekly);
    lemma_labels_distinct(BudgetPeriod::Daily, BudgetPeriod::Monthly);
    lemma_labels_distinct(BudgetPeriod::Weekly, BudgetPeriod::Monthly);
    let cl = config_limits(config);
    let dn: int = if config.daily is Some { 1 } else { 0 };
    let wn: int = if config.weekly is Some { 1 } else { 0 };
    let mn: int = if config.monthly is Some { 1 } else { 0 };
    assert(cl.len() == dn + wn + mn);
    if config.daily is Some {
        assert(cl[0].0 == period_label(BudgetPeriod::Daily));
    }
    if config.weekly is Some {
        assert(cl[dn].0 == period_label(BudgetPeriod::Weekly));
    }
    if config.monthly is Some {
        assert(cl[dn + wn].0 == period_label(BudgetPeriod::Monthly));
    }
    assert forall|i: int| 0 <= i < cl.len() implies {
        ||| (config.daily is Some && i == 0 && (#[trigger] cl[i]).0 == period_label(BudgetPeriod::Daily))
        ||| (config.weekly is Some && i == dn && cl[i].0 == period_label(BudgetPeriod::Weekly))
        ||| (config.monthly is Some && i == dn + wn && cl[i].0 == period_label(BudgetPeriod::Monthly))
    } by {
        if i < dn {
        } else if i < dn + wn {
        } else {
        }
    }
    assert forall|a: int, b: int|
        0 <= a < m.ledger.len() && 0 <= b < m.ledger.len() && a != b implies (#[trigger] m.ledger[a]).name
        != (#[trigger] m.ledger[b]).name by {
        assert(m.ledger[a].name == cl[a].0);
        assert(m.ledger[b].name == cl[b].0);
    }
    if let Some(limit) = configured_limit(config, p) {
        let k: int = match p {
            BudgetPeriod::Daily => 0,
            BudgetPeriod::Weekly => dn,
            BudgetPeriod::Monthly => dn + wn,
        };
        assert(cl[k] == (period_label(p), limit as int));
        lemma_index_of(m.ledger, period_label(p), k);
        assert(cl[k].0 == period_label(p));
        let j = limit_index(cl, period_label(p));
        assert(cl[j].0 == m.ledger[j].name);
        let q = m.ledger[k];
        assert forall|spent: int|
            0 <= spent && spent * TOLERANCE_SCALE <= limit * (TOLERANCE_SCALE
                + config.tolerance) implies #[trigger] conserved(with_current(q, limit - spent)) by {
            assert((limit - spent) * TOLERANCE_SCALE == limit * TOLERANCE_SCALE - spent
                * TOLERANCE_SCALE) by (nonlinear_arith);
        }
    } else {
        if has_name(m.ledger, period_label(p)) {
            let k = index_of(m.ledger, period_label(p));
            assert(m.ledger[k].name == cl[k].0);
        }
        if has_limit(cl, period_label(p)) {
            let j = limit_index(cl, period_label(p));
            assert(cl[j].0 == period_label(p));
        }
    }
}

/// In a restored guard every period is registered with the limit that the
/// snapshot reports for it, which is also the period's baseline; so resetting
/// a restored period gives it back that full limit, not what was left of it.
pub proof fn law_restored_reset_gives_snapshot_limit(
    s: BudgetSnapshot,
    config: BudgetConfig,
    r: GuardModel,
    i: int,
)
    requires
        restorable(s),
        restored_from(r, s, config),
        0 <= i < s.periods@.len(),
    ensures
        has_limit(r.period_limits, s.periods@[i].0@),
        limit_of(r.period_limits, s.periods@[i].0@) == s.periods@[i].1.limit,
        has_name(r.ledger, s.periods@[i].0@),
        index_of(r.ledger, s.periods@[i].0@) == i,
        r.ledger[i].initial == s.periods@[i].1.limit,
        reset_ledger(r.ledger, s.periods@[i].0@, limit_of(r.period_limits, s.periods@[i].0@))[i].current
            == s.periods@[i].1.limit,
{
    let label = s.periods@[i].0@;
    assert(r.period_limits[i].0 == label);
    let k = limit_index(r.period_limits, label);
    assert(r.period_limits[k].0 == s.periods@[k].0@);
    if k != i {
        assert(s.periods@[k].0@ != s.periods@[i].0@);
    }
    assert forall|a: int, b: int|
        0 <= a < r.ledger.len() && 0 <= b < r.ledger.len() && a != b implies (#[trigger] r.ledger[a]).name
        != (#[trigger] r.ledger[b]).name by {
        assert(s.periods@[a].0@ != s.periods@[b].0@);
    }
    lemma_index_of(r.ledger, label, i);
}

/// Restoring keeps every period's tolerance the configured fraction of the
/// limit the snapshot reports, and resumes it at the remaining tokens; so a
/// restored period with a non-negative limit and tokens left is within budget.
pub proof fn law_restored_periods_keep_tolerance(s: BudgetSnapshot, config: BudgetConfig, r: GuardModel)
    requires
        restored_from(r, s, config),
    ensures
        r.ledger.len() == s.periods@.len(),
        forall|i: int|
            0 <= i < r.ledger.len() ==> {
                let q = #[trigger] r.ledger[i];
                let ps = s.periods@[i].1;
                &&& q.name == s.periods@[i].0@
                &&& q.initial == ps.limit
                &&& q.current == ps.remaining
                &&& q.tolerance == ps.limit * (TOLERANCE_SCALE + config.tolerance)
                &&& ps.limit >= 0 && ps.remaining >= 0 ==> conserved(q)
            },
{
    assert forall|i: int| 0 <= i < r.ledger.len() implies {
        let q = #[trigger] r.ledger[i];
        let ps = s.periods@[i].1;
        &&& q.name == s.periods@[i].0@
        &&& q.initial == ps.limit
        &&& q.current == ps.remaining
        &&& q.tolerance == ps.limit * (TOLERANCE_SCALE + config.tolerance)
        &&& ps.limit >= 0 && ps.remaining >= 0 ==> conserved(q)
    } by {
        let ps = s.periods@[i].1;
        let t = config.tolerance as int;
        if ps.limit >= 0 && ps.remaining >= 0 {
            assert(ps.limit * (TOLERANCE_SCALE + t) == ps.limit * TOLERANCE_SCALE + ps.limit * t)
                by (nonlinear_arith);
            assert(ps.limit * t >= 0) by (nonlinear_arith)
                requires ps.limit >= 0, t >= 0;
            assert(ps.remaining * TOLERANCE_SCALE >= 0) by (nonlinear_arith)
                requires ps.remaining >= 0;
        }
    }
}

} // verus!
