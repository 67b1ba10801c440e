use vstd::prelude::*;

verus! {

/// Supported budget period windows.
#[derive(Debug, Clone, Copy, PartialEq, Eq, Hash)]
pub enum BudgetPeriod {
    /// Resets every 24 hours.
    Daily,
    /// Resets every 7 days.
    Weekly,
    /// Resets every 30 days.
    Monthly,
}

/// The label under which a period is tracked.
pub open spec fn period_label(p: BudgetPeriod) -> Seq<char> {
    match p {
        BudgetPeriod::Daily => "daily"@,
        BudgetPeriod::Weekly => "weekly"@,
        BudgetPeriod::Monthly => "monthly"@,
    }
}

/// Distinct periods have distinct labels.
pub proof fn lemma_labels_distinct(a: BudgetPeriod, b: BudgetPeriod)
    requires
        a != b,
    ensures
        period_label(a) != period_label(b),
{
    reveal_strlit("daily");
    reveal_strlit("weekly");
    reveal_strlit("monthly");
    assert(period_label(BudgetPeriod::Daily).len() == 5);
    assert(period_label(BudgetPeriod::Weekly).len() == 6);
    assert(period_label(BudgetPeriod::Monthly).len() == 7);
}

impl BudgetPeriod {
    /// The label under which this period is registered.
    pub fn label(&self) -> (s: &'static str)
        ensures
            s@ == period_label(*self),
    {
        match self {
            BudgetPeriod::Daily => "daily",
            BudgetPeriod::Weekly => "weekly",
            BudgetPeriod::Monthly => "monthly",
        }
    }

    /// Human-readable labels for each budget period, in the order daily,
    /// weekly, monthly.
    pub fn labels() -> (r: [&'static str; 3])
        ensures
            r@[0]@ == period_label(BudgetPeriod::Daily),
            r@[1]@ == period_label(BudgetPeriod::Weekly),
            r@[2]@ == period_label(BudgetPeriod::Monthly),
    {
        ["daily", "weekly", "monthly"]
    }
}

} // verus!
