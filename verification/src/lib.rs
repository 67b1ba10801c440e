//! Token budget enforcement across daily, weekly and monthly windows.
//!
//! Every period keeps a one-sided conservation ledger of the tokens that remain
//! in it. Each recorded API call deducts its tokens from every period; the
//! share of each limit consumed decides whether the next call may proceed
//! with the requested model, should be throttled down a ladder of cheaper
//! models, or must be halted because every limited window is exhausted.
//!
//! Token amounts are integers; tolerance fractions are fixed-point numbers in
//! millionths (`TOLERANCE_SCALE` is one whole).

pub mod action;
mod clock;
pub mod config;
pub mod guard;
pub mod laws;
pub mod ledger;
pub mod period;

pub use action::{BudgetAction, BudgetError};
pub use config::{default_throttle_ladder, default_warmup_records, BudgetConfig, BudgetConfigBuilder};
pub use guard::{BudgetGuard, BudgetSnapshot, PeriodSnapshot, SpendingRecord};
pub use ledger::{phase_severity, phase_to_string, PeriodLedger, Phase, TOLERANCE_SCALE};
pub use period::BudgetPeriod;
