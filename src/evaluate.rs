//! Threshold verdicts.
use vstd::prelude::*;

verus! {

/// The four optional bounds on a count. Bounds may be given in any order.
#[derive(Debug, Clone, Copy, Default)]
pub struct Thresholds {
    pub warning_min: Option<u64>,
    pub warning_max: Option<u64>,
    pub critical_min: Option<u64>,
    pub critical_max: Option<u64>,
}

/// The outcome of one evaluation.
#[derive(Debug, Clone, Copy, PartialEq, Eq, Structural)]
pub enum Verdict {
    Okay,
    Warning,
    Critical,
    Unknown,
}

impl Verdict {
    pub open spec fn spec_exit_code(self) -> i32 {
        match self {
            Verdict::Okay => 0,
            Verdict::Warning => 1,
            Verdict::Critical => 2,
            Verdict::Unknown => 3,
        }
    }

    /// The process exit code a monitoring supervisor expects.
    pub fn exit_code(self) -> (r: i32)
        ensures
            r == self.spec_exit_code(),
    {
        match self {
            Verdict::Okay => 0,
            Verdict::Warning => 1,
            Verdict::Critical => 2,
            Verdict::Unknown => 3,
        }
    }

    pub open spec fn spec_level_word(self) -> Seq<char> {
        match self {
            Verdict::Okay => "OK"@,
            Verdict::Warning => "WARNING"@,
            Verdict::Critical => "CRITICAL"@,
            Verdict::Unknown => "UNKNOWN"@,
        }
    }

    /// The word that opens the first line of a report.
    pub fn level_word(self) -> (r: String)
        ensures
            r@ == self.spec_level_word(),
    {
        match self {
            Verdict::Okay => "OK".to_owned(),
            Verdict::Warning => "WARNING".to_owned(),
            Verdict::Critical => "CRITICAL".to_owned(),
            Verdict::Unknown => "UNKNOWN".to_owned(),
        }
    }
}

/// Which bound decided a verdict.
#[derive(Debug, Clone, Copy, PartialEq, Eq, Structural)]
pub enum Rule {
    CriticalMin,
    WarningMin,
    CriticalMax,
    WarningMax,
    /// No bound was reached.
    WithinBounds,
}

impl Rule {
    pub open spec fn spec_verdict(self) -> Verdict {
        match self {
            Rule::CriticalMin => Verdict::Critical,
            Rule::WarningMin => Verdict::Warning,
            Rule::CriticalMax => Verdict::Critical,
            Rule::WarningMax => Verdict::Warning,
            Rule::WithinBounds => Verdict::Okay,
        }
    }

    /// The verdict this rule stands for.
    pub fn verdict(self) -> (r: Verdict)
        ensures
            r == self.spec_verdict(),
    {
        match self {
            Rule::CriticalMin => Verdict::Critical,
            Rule::WarningMin => Verdict::Warning,
            Rule::CriticalMax => Verdict::Critical,
            Rule::WarningMax => Verdict::Warning,
            Rule::WithinBounds => Verdict::Okay,
        }
    }
}

/// Whether a lower bound is present and reached.
pub open spec fn at_or_below(count: u64, bound: Option<u64>) -> bool {
    bound is Some && count <= bound->0
}

/// Whether an upper bound is present and reached.
pub open spec fn at_or_above(count: u64, bound: Option<u64>) -> bool {
    bound is Some && count >= bound->0
}

/// The first rule that fires: critical-min, warning-min, critical-max,
/// warning-max, in that order.
pub open spec fn spec_fired_rule(count: u64, t: Thresholds) -> Rule {
    if at_or_below(count, t.critical_min) {
        Rule::CriticalMin
    } else if at_or_below(count, t.warning_min) {
        Rule::WarningMin
    } else if at_or_above(count, t.critical_max) {
        Rule::CriticalMax
    } else if at_or_above(count, t.warning_max) {
        Rule::WarningMax
    } else {
        Rule::WithinBounds
    }
}

pub open spec fn spec_evaluate(count: u64, t: Thresholds) -> Verdict {
    spec_fired_rule(count, t).spec_verdict()
}

/// The rule that decides the verdict on `count`.
pub fn fired_rule(count: u64, t: &Thresholds) -> (r: Rule)
    ensures
        r == spec_fired_rule(count, *t),
{
    match t.critical_min {
        Some(b) if count <= b => { return Rule::CriticalMin; },
        _ => {},
    }
    match t.warning_min {
        Some(b) if count <= b => { return Rule::WarningMin; },
        _ => {},
    }
    match t.critical_max {
        Some(b) if count >= b => { return Rule::CriticalMax; },
        _ => {},
    }
    match t.warning_max {
        Some(b) if count >= b => { return Rule::WarningMax; },
        _ => {},
    }
    Rule::WithinBounds
}

/// The verdict on `count` under the bounds `t`.
pub fn evaluate(count: u64, t: &Thresholds) -> (r: Verdict)
    ensures
        r == spec_evaluate(count, *t),
{
    fired_rule(count, t).verdict()
}

/// The bounds are tried in a fixed order and the first one reached decides:
/// a reached critical minimum always gives Critical, even where the warning
/// minimum is reached too; a reached minimum wins over a reached maximum; a
/// bound that is absent never fires; and with no bound reached the verdict is Ok.
pub proof fn lemma_evaluation_precedence(count: u64, t: Thresholds)
    ensures
        at_or_below(count, t.critical_min) ==> spec_evaluate(count, t) == Verdict::Critical,
        !at_or_below(count, t.critical_min) && at_or_below(count, t.warning_min)
            ==> spec_evaluate(count, t) == Verdict::Warning,
        (at_or_below(count, t.critical_min) || at_or_below(count, t.warning_min))
            ==> spec_fired_rule(count, t) == Rule::CriticalMin || spec_fired_rule(count, t)
            == Rule::WarningMin,
        !at_or_below(count, t.critical_min) && !at_or_below(count, t.warning_min) && at_or_above(
            count,
            t.critical_max,
        ) ==> spec_evaluate(count, t) == Verdict::Critical,
        !at_or_below(count, t.critical_min) && !at_or_below(count, t.warning_min) && !at_or_above(
            count,
            t.critical_max,
        ) && at_or_above(count, t.warning_max) ==> spec_evaluate(count, t) == Verdict::Warning,
        !at_or_below(count, t.critical_min) && !at_or_below(count, t.warning_min) && !at_or_above(
            count,
            t.critical_max,
        ) && !at_or_above(count, t.warning_max) ==> spec_evaluate(count, t) == Verdict::Okay,
        (t.warning_min is None && t.warning_max is None && t.critical_min is None
            && t.critical_max is None) ==> spec_evaluate(count, t) == Verdict::Okay,
{
}

/// Equal inputs give equal verdicts.
pub proof fn lemma_evaluation_deterministic(c1: u64, t1: Thresholds, c2: u64, t2: Thresholds)
    requires
        c1 == c2,
        t1 == t2,
    ensures
        spec_evaluate(c1, t1) == spec_evaluate(c2, t2),
        spec_fired_rule(c1, t1) == spec_fired_rule(c2, t2),
{
}

/// Comparisons are inclusive: a count equal to a bound reaches it.
pub proof fn lemma_bounds_inclusive(count: u64, t: Thresholds)
    ensures
        t.critical_min == Some(count) ==> spec_evaluate(count, t) == Verdict::Critical,
        t.critical_min is None && t.warning_min == Some(count) ==> spec_evaluate(count, t)
            == Verdict::Warning,
        !at_or_below(count, t.critical_min) && !at_or_below(count, t.warning_min)
            && t.critical_max == Some(count) ==> spec_evaluate(count, t) == Verdict::Critical,
        !at_or_below(count, t.critical_min) && !at_or_below(count, t.warning_min) && !at_or_above(
            count,
            t.critical_max,
        ) && t.warning_max == Some(count) ==> spec_evaluate(count, t) == Verdict::Warning,
{
}

} // verus!
