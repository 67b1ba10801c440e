# codex_budget_guard

Token budget enforcement for coding-agent sessions, verified with Verus.

A `BudgetGuard` tracks daily, weekly and monthly token allowances as
one-sided conservation quantities in a `PeriodLedger`. Every recorded API call
deducts its tokens from every period and takes a snapshot. Each period's share
of its limit consumed puts it in a band: below 60% `Stable`, from 60%
`PreTransition` (warning), from 85% `Transitioning` (critical). The guard
proceeds with the requested model below the critical band, throttles one rung
down a ladder of cheaper models in it, and halts once every limited period is
exhausted; a guard without limits never halts. A tolerance lets a period
overspend its limit by the configured fraction before it counts as violated.
The ledger also classifies each quantity's trajectory from its last
snapshots, as a one-sided conservation tracker does.

Token amounts are integers and tolerance fractions are fixed-point numbers in
millionths, so every rule is exact.

Layout:

- `src/period.rs`: budget periods and their labels.
- `src/config.rs`: configuration, its builder and defaults.
- `src/ledger.rs`: the conservation ledger and phase detection.
- `src/action.rs`: recommended actions and errors.
- `src/guard.rs`: the guard: recording, recommendation, resets, snapshots.
- `src/laws.rs`: properties of the guard proved over its model.
- `src/clock.rs`: the wall clock used to timestamp records and snapshots.
- `app/`: JSON audit snapshots, file-format configuration with fractional
  tolerances, and error reporting with `thiserror`.
