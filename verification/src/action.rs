use vstd::prelude::*;

verus! {

/// The action the budget guard recommends before the next API call.
#[derive(Debug, Clone, PartialEq, Eq)]
pub enum BudgetAction {
    /// Budget healthy. Use the given model slug.
    Proceed(String),
    /// Budget approaching depletion. Downgrade to the given cheaper model.
    Throttle(String),
    /// All budget windows exhausted. Further requests should be blocked.
    Halt,
}

/// What a `BudgetAction` says, with model slugs as character sequences.
pub enum ActionModel {
    Proceed(Seq<char>),
    Throttle(Seq<char>),
    Halt,
}

impl View for BudgetAction {
    type V = ActionModel;

    open spec fn view(&self) -> ActionModel {
        match self {
            BudgetAction::Proceed(m) => ActionModel::Proceed(m@),
            BudgetAction::Throttle(m) => ActionModel::Throttle(m@),
            BudgetAction::Halt => ActionModel::Halt,
        }
    }
}

/// Errors of budget guard operations.
#[derive(Debug)]
pub enum BudgetError {
    /// The named budget period has not been registered.
    NotRegistered(String),
}

/// The message of a `NotRegistered` error for `name`.
pub open spec fn not_registered_message(name: Seq<char>) -> Seq<char> {
    "budget period '"@ + name + "' is not registered"@
}

impl BudgetError {
    /// Human-readable description of the error.
    pub fn to_string(&self) -> (s: String)
        ensures
            self matches BudgetError::NotRegistered(name) && s@ == not_registered_message(name@),
    {
        match self {
            BudgetError::NotRegistered(name) => {
                let mut s = "budget period '".to_owned();
                s.append(name.as_str());
                s.append("' is not registered");
                s
            },
        }
    }
}

} // verus!
