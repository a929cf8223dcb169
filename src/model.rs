//! The records handed over by the coordination service.
use vstd::prelude::*;
use crate::text::text_eq;

verus! {

/// The state a health check reports.
#[derive(Debug, Clone)]
pub enum CheckStatus {
    Passing,
    Warning,
    Critical,
    /// Any other state, kept as reported.
    Unknown(String),
}

proof fn lemma_state_words_distinct()
    ensures
        "passing"@ != "warning"@,
        "passing"@ != "critical"@,
        "warning"@ != "critical"@,
{
    reveal_strlit("passing");
    reveal_strlit("warning");
    reveal_strlit("critical");
    assert("warning"@[0] != "passing"@[0]);
    assert("critical"@[0] != "passing"@[0]);
    assert("critical"@[0] != "warning"@[0]);
}

impl CheckStatus {
    /// The state as the coordination service writes it.
    pub open spec fn text(&self) -> Seq<char> {
        match self {
            CheckStatus::Passing => "passing"@,
            CheckStatus::Warning => "warning"@,
            CheckStatus::Critical => "critical"@,
            CheckStatus::Unknown(s) => s@,
        }
    }

    /// A check passes exactly when its state reads `passing`.
    pub open spec fn spec_is_passing(&self) -> bool {
        self.text() == "passing"@
    }

    /// Reads a reported state; anything but the three known words is kept
    /// as an unknown state.
    pub fn parse(s: &str) -> (r: CheckStatus)
        ensures
            r.text() == s@,
            (r is Passing) == (s@ == "passing"@),
            (r is Warning) == (s@ == "warning"@),
            (r is Critical) == (s@ == "critical"@),
    {
        proof {
            lemma_state_words_distinct();
        }
        if text_eq(s, "passing") {
            CheckStatus::Passing
        } else if text_eq(s, "warning") {
            CheckStatus::Warning
        } else if text_eq(s, "critical") {
            CheckStatus::Critical
        } else {
            CheckStatus::Unknown(s.to_owned())
        }
    }

    /// The state as text.
    pub fn as_text(&self) -> (r: String)
        ensures
            r@ == self.text(),
    {
        match self {
            CheckStatus::Passing => "passing".to_owned(),
            CheckStatus::Warning => "warning".to_owned(),
            CheckStatus::Critical => "critical".to_owned(),
            CheckStatus::Unknown(s) => s.clone(),
        }
    }

    /// Whether the state reads `passing`.
    pub fn is_passing(&self) -> (r: bool)
        ensures
            r == self.spec_is_passing(),
    {
        proof {
            lemma_state_words_distinct();
        }
        match self {
            CheckStatus::Passing => true,
            CheckStatus::Warning => false,
            CheckStatus::Critical => false,
            CheckStatus::Unknown(s) => text_eq(s.as_str(), "passing"),
        }
    }
}

/// One health check.
#[derive(Debug, Clone)]
pub struct CheckRecord {
    pub id: String,
    pub status: CheckStatus,
    pub output: String,
}

/// One running occurrence of a service on a node, with its checks.
#[derive(Debug, Clone)]
pub struct ServiceInstance {
    pub service_name: String,
    pub node_name: String,
    pub tags: Option<Vec<String>>,
    pub checks: Vec<CheckRecord>,
}

impl ServiceInstance {
    /// An instance is healthy when every one of its checks passes.
    pub open spec fn healthy(&self) -> bool {
        forall|i: int| 0 <= i < self.checks@.len() ==> #[trigger] self.checks@[i].status.spec_is_passing()
    }
}

} // verus!
