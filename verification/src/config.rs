use vstd::prelude::*;
use crate::ledger::{in_value_range, TOLERANCE_BOUND, TOLERANCE_SCALE, VALUE_BOUND};

verus! {

/// The views of a list of model slugs.
pub open spec fn ladder_view(v: Seq<String>) -> Seq<Seq<char>> {
    Seq::new(v.len(), |i: int| v[i]@)
}

/// The ladder used when none is configured, most to least capable.
pub open spec fn default_ladder() -> Seq<Seq<char>> {
    seq!["gpt-5-codex"@, "gpt-4.1"@, "gpt-4.1-mini"@, "gpt-4.1-nano"@]
}

/// Number of records before phase analysis is active, when none is configured.
pub open spec fn default_warmup() -> int {
    5
}

/// The default model tier ladder.
pub fn default_throttle_ladder() -> (r: Vec<String>)
    ensures
        ladder_view(r@) == default_ladder(),
{
    let r = vec![
        "gpt-5-codex".to_owned(),
        "gpt-4.1".to_owned(),
        "gpt-4.1-mini".to_owned(),
        "gpt-4.1-nano".to_owned(),
    ];
    assert(ladder_view(r@) =~= default_ladder());
    r
}

/// The default minimum number of records before phase analysis is active.
pub fn default_warmup_records() -> (n: usize)
    ensures
        n == default_warmup(),
{
    5
}

/// `tol` clamped into `[0, TOLERANCE_SCALE]`.
pub open spec fn clamp_tolerance(tol: int) -> int {
    if tol < 0 {
        0
    } else if tol > TOLERANCE_SCALE {
        TOLERANCE_SCALE as int
    } else {
        tol
    }
}

/// Configuration for token budget limits across time windows.
#[derive(Debug, Clone)]
pub struct BudgetConfig {
    /// Maximum tokens allowed per day. `None` means unlimited.
    pub daily: Option<u64>,
    /// Maximum tokens allowed per week. `None` means unlimited.
    pub weekly: Option<u64>,
    /// Maximum tokens allowed per month. `None` means unlimited.
    pub monthly: Option<u64>,
    /// Tolerance fraction applied to each budget, in millionths: `50_000`
    /// allows spending up to 5% past the limit before a budget counts as
    /// violated; `0` is strict (any spending past the limit violates).
    pub tolerance: u32,
    /// Model tier ladder for auto-throttle, most to least capable.
    pub throttle_ladder: Vec<String>,
    /// Minimum number of records before phase analysis is active.
    pub warmup_records: usize,
}

impl Default for BudgetConfig {
    /// 500K tokens a day, 2.5M a week, 10M a month, strict, with the default
    /// ladder and warmup.
    fn default() -> (c: Self)
        ensures
            c.daily == Some(500_000u64),
            c.weekly == Some(2_500_000u64),
            c.monthly == Some(10_000_000u64),
            c.tolerance == 0,
            ladder_view(c.throttle_ladder@) == default_ladder(),
            c.warmup_records == default_warmup(),
    {
        BudgetConfig {
            daily: Some(500_000),
            weekly: Some(2_500_000),
            monthly: Some(10_000_000),
            tolerance: 0,
            throttle_ladder: default_throttle_ladder(),
            warmup_records: default_warmup_records(),
        }
    }
}

impl BudgetConfig {
    /// Create a builder with no limits, strict tolerance, and no ladder or
    /// warmup set.
    pub fn builder() -> (b: BudgetConfigBuilder)
        ensures
            b@ == (BuilderModel {
                daily: None,
                weekly: None,
                monthly: None,
                tolerance: 0,
                throttle_ladder: None,
                warmup_records: None,
            }),
    {
        BudgetConfigBuilder {
            daily: None,
            weekly: None,
            monthly: None,
            tolerance: 0,
            throttle_ladder: None,
            warmup_records: None,
        }
    }

    /// The tolerance handed to the ledger for a period with this limit: the
    /// allowed decrease below the baseline, in millionths of a token. The whole
    /// limit may be spent, and the configured fraction of it on top.
    pub(crate) fn checker_tolerance(&self, limit: i128) -> (t: i128)
        requires
            in_value_range(limit as int),
        ensures
            t == limit * (TOLERANCE_SCALE + self.tolerance),
            -TOLERANCE_BOUND <= t <= TOLERANCE_BOUND,
    {
        let factor: i128 = TOLERANCE_SCALE + self.tolerance as i128;
        assert(-VALUE_BOUND * 0x2_0000_0000 <= limit * factor <= VALUE_BOUND * 0x2_0000_0000)
            by (nonlinear_arith)
            requires
                -VALUE_BOUND <= limit <= VALUE_BOUND,
                0 <= factor < 0x2_0000_0000,
        ;
        limit * factor
    }
}

/// What a `BudgetConfigBuilder` holds.
pub struct BuilderModel {
    pub daily: Option<u64>,
    pub weekly: Option<u64>,
    pub monthly: Option<u64>,
    pub tolerance: u32,
    pub throttle_ladder: Option<Vec<String>>,
    pub warmup_records: Option<usize>,
}

/// Builder for `BudgetConfig`.
#[derive(Debug)]
pub struct BudgetConfigBuilder {
    daily: Option<u64>,
    weekly: Option<u64>,
    monthly: Option<u64>,
    tolerance: u32,
    throttle_ladder: Option<Vec<String>>,
    warmup_records: Option<usize>,
}

impl View for BudgetConfigBuilder {
    type V = BuilderModel;

    closed spec fn view(&self) -> BuilderModel {
        BuilderModel {
            daily: self.daily,
            weekly: self.weekly,
            monthly: self.monthly,
            tolerance: self.tolerance,
            throttle_ladder: self.throttle_ladder,
            warmup_records: self.warmup_records,
        }
    }
}

impl BudgetConfigBuilder {
    /// Set daily token limit.
    pub fn daily(self, tokens: u64) -> (b: Self)
        ensures
            b@ == (BuilderModel { daily: Some(tokens), ..self@ }),
    {
        BudgetConfigBuilder { daily: Some(tokens), ..self }
    }

    /// Set weekly token limit.
    pub fn weekly(self, tokens: u64) -> (b: Self)
        ensures
            b@ == (BuilderModel { weekly: Some(tokens), ..self@ }),
    {
        BudgetConfigBuilder { weekly: Some(tokens), ..self }
    }

    /// Set monthly token limit.
    pub fn monthly(self, tokens: u64) -> (b: Self)
        ensures
            b@ == (BuilderModel { monthly: Some(tokens), ..self@ }),
    {
        BudgetConfigBuilder { monthly: Some(tokens), ..self }
    }

    /// Set the budget tolerance fraction, in millionths, clamped into
    /// `[0, 1_000_000]` (0 = strict, 50_000 = allow 5% overshoot).
    pub fn tolerance(self, tol: i64) -> (b: Self)
        ensures
            b@ == (BuilderModel { tolerance: clamp_tolerance(tol as int) as u32, ..self@ }),
    {
        let t: u32 = if tol < 0 {
            0
        } else if tol > 1_000_000 {
            1_000_000
        } else {
            tol as u32
        };
        BudgetConfigBuilder { tolerance: t, ..self }
    }

    /// Set the throttle ladder (ordered most to least capable).
    pub fn throttle_ladder(self, ladder: Vec<String>) -> (b: Self)
        ensures
            b@ == (BuilderModel { throttle_ladder: Some(ladder), ..self@ }),
    {
        BudgetConfigBuilder { throttle_ladder: Some(ladder), ..self }
    }

    /// Set minimum number of records before phase analysis is active.
    pub fn warmup_records(self, n: usize) -> (b: Self)
        ensures
            b@ == (BuilderModel { warmup_records: Some(n), ..self@ }),
    {
        BudgetConfigBuilder { warmup_records: Some(n), ..self }
    }

    /// Build the `BudgetConfig`; an unset ladder or warmup takes its default.
    pub fn build(self) -> (c: BudgetConfig)
        ensures
            c.daily == self@.daily,
            c.weekly == self@.weekly,
            c.monthly == self@.monthly,
            c.tolerance == self@.tolerance,
            self@.throttle_ladder matches Some(l) ==> c.throttle_ladder == l,
            self@.throttle_ladder is None ==> ladder_view(c.throttle_ladder@) == default_ladder(),
            c.warmup_records == (match self@.warmup_records {
                Some(n) => n as int,
                None => default_warmup(),
            }),
    {
        let throttle_ladder = match self.throttle_ladder {
            Some(l) => l,
            None => default_throttle_ladder(),
        };
        let warmup_records = match self.warmup_records {
            Some(n) => n,
            None => default_warmup_records(),
        };
        BudgetConfig {
            daily: self.daily,
            weekly: self.weekly,
            monthly: self.monthly,
            tolerance: self.tolerance,
            throttle_ladder,
            warmup_records,
        }
    }
}

} // verus!
