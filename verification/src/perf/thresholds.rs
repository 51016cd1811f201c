//! Budgets for regression warnings.
use vstd::prelude::*;

verus! {

/// Outcome of comparing a sample to warn/fail budgets.
#[derive(Debug, Clone, Copy, PartialEq, Eq, Structural)]
pub enum Budget {
    Okay,
    Warn,
    Fail,
}

impl Budget {
    /// Classifies an integer sample (such as RSS) against warn and fail
    /// ceilings; fail wins.
    pub fn classify_u64(value: u64, warn: u64, fail: u64) -> (r: Budget)
        ensures
            r == (if value > fail {
                Budget::Fail
            } else if value > warn {
                Budget::Warn
            } else {
                Budget::Okay
            }),
    {
        if value > fail {
            Budget::Fail
        } else if value > warn {
            Budget::Warn
        } else {
            Budget::Okay
        }
    }
}

/// The label a budget outcome is reported with.
pub open spec fn budget_label_of(b: Budget) -> Seq<char> {
    match b {
        Budget::Okay => "ok"@,
        Budget::Warn => "warn"@,
        Budget::Fail => "fail"@,
    }
}

/// Returns the label a budget outcome is reported with.
pub fn budget_label(b: Budget) -> (r: &'static str)
    ensures
        r@ == budget_label_of(b),
{
    match b {
        Budget::Okay => "ok",
        Budget::Warn => "warn",
        Budget::Fail => "fail",
    }
}

} // verus!
