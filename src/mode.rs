//! Selection of the evaluation flow, and the verdicts of failed runs.
use vstd::prelude::*;
use crate::evaluate::{Thresholds, Verdict};
use crate::text::{concat, text_eq};

verus! {

/// What a run was asked to do, as given on the command line.
#[derive(Debug, Clone)]
pub struct Settings {
    pub mode: String,
    pub service: Option<String>,
    pub tag: Option<String>,
    pub node: Option<String>,
    pub check_id: Option<String>,
    pub expected_leader: Option<String>,
    pub expected_peer_count: Option<u64>,
    pub thresholds: Thresholds,
    pub verbose: bool,
    pub critical_on_error: bool,
}

/// One of the four evaluation flows, with the parameters it needs.
#[derive(Debug, Clone)]
pub enum Mode {
    ServiceHealth { service: String, tag: Option<String> },
    NodeServiceHealth { node: String, service: Option<String>, check_id: Option<String> },
    Leader { expected: Option<String> },
    Peers { expected: Option<u64> },
}

/// Why a run stopped before querying anything.
#[derive(Debug, Clone)]
pub enum ConfigError {
    /// No mode was given.
    MissingMode,
    /// The mode is not one of the four known ones.
    UnknownMode(String),
    /// The service-health flow needs a service name.
    MissingService,
    /// The node-health flow needs a node name.
    MissingNode,
    /// The node-health flow needs a service or a check-id filter.
    MissingNodeFilter,
}

impl ConfigError {
    pub open spec fn spec_message(&self) -> Seq<char> {
        match self {
            ConfigError::MissingMode => "No check mode found"@,
            ConfigError::UnknownMode(m) => "Unknown check mode "@ + m@,
            ConfigError::MissingService => "service must be provided for this mode"@,
            ConfigError::MissingNode => "node must be provided in this mode"@,
            ConfigError::MissingNodeFilter => "service or check-id must be provided for this check"@,
        }
    }

    /// The diagnostic for the error.
    pub fn message(&self) -> (r: String)
        ensures
            r@ == self.spec_message(),
    {
        match self {
            ConfigError::MissingMode => "No check mode found".to_owned(),
            ConfigError::UnknownMode(m) => concat("Unknown check mode ", m.as_str()),
            ConfigError::MissingService => "service must be provided for this mode".to_owned(),
            ConfigError::MissingNode => "node must be provided in this mode".to_owned(),
            ConfigError::MissingNodeFilter => "service or check-id must be provided for this check".to_owned(),
        }
    }

    /// A configuration error always ends the run as Unknown.
    pub fn verdict(&self) -> (r: Verdict)
        ensures
            r == Verdict::Unknown,
    {
        Verdict::Unknown
    }
}

/// The flow that the settings ask for, or why they ask for none.
pub open spec fn spec_select_mode(s: Settings) -> Result<Mode, ConfigError> {
    if s.mode@ == "service-health"@ {
        match s.service {
            Some(service) => Ok(Mode::ServiceHealth { service, tag: s.tag }),
            None => Err(ConfigError::MissingService),
        }
    } else if s.mode@ == "leader"@ {
        Ok(Mode::Leader { expected: s.expected_leader })
    } else if s.mode@ == "peers"@ {
        Ok(Mode::Peers { expected: s.expected_peer_count })
    } else if s.mode@ == "node-service-health"@ {
        match s.node {
            None => Err(ConfigError::MissingNode),
            Some(node) => if s.service is None && s.check_id is None {
                Err(ConfigError::MissingNodeFilter)
            } else {
                Ok(Mode::NodeServiceHealth { node, service: s.service, check_id: s.check_id })
            },
        }
    } else if s.mode@ == ""@ {
        Err(ConfigError::MissingMode)
    } else {
        Err(ConfigError::UnknownMode(s.mode))
    }
}

fn copy_text(s: &Option<String>) -> (r: Option<String>)
    ensures
        r == *s,
{
    match s {
        Some(v) => Some(v.clone()),
        None => None,
    }
}

/// Picks the flow and checks that its required parameters are there.
pub fn select_mode(s: &Settings) -> (r: Result<Mode, ConfigError>)
    ensures
        r == spec_select_mode(*s),
{
    let m = s.mode.as_str();
    if text_eq(m, "service-health") {
        match &s.service {
            Some(service) => Ok(Mode::ServiceHealth { service: service.clone(), tag: copy_text(&s.tag) }),
            None => Err(ConfigError::MissingService),
        }
    } else if text_eq(m, "leader") {
        Ok(Mode::Leader { expected: copy_text(&s.expected_leader) })
    } else if text_eq(m, "peers") {
        Ok(Mode::Peers { expected: s.expected_peer_count })
    } else if text_eq(m, "node-service-health") {
        match &s.node {
            None => Err(ConfigError::MissingNode),
            Some(node) => {
                if s.service.is_none() && s.check_id.is_none() {
                    Err(ConfigError::MissingNodeFilter)
                } else {
                    Ok(
                        Mode::NodeServiceHealth {
                            node: node.clone(),
                            service: copy_text(&s.service),
                            check_id: copy_text(&s.check_id),
                        },
                    )
                }
            },
        }
    } else if text_eq(m, "") {
        Err(ConfigError::MissingMode)
    } else {
        Err(ConfigError::UnknownMode(s.mode.clone()))
    }
}

/// A failed query ends the run as Critical where asked, else as Unknown.
pub fn fetch_failure_verdict(critical_on_error: bool) -> (r: Verdict)
    ensures
        r == (if critical_on_error {
            Verdict::Critical
        } else {
            Verdict::Unknown
        }),
{
    if critical_on_error {
        Verdict::Critical
    } else {
        Verdict::Unknown
    }
}

pub open spec fn spec_fetch_failure_message(mode: Mode) -> Seq<char> {
    match mode {
        Mode::ServiceHealth { .. } => "Failed to get service instances"@,
        Mode::NodeServiceHealth { node, .. } => "Failed to get service health on node "@ + node@,
        Mode::Leader { .. } => "Failed to get leader"@,
        Mode::Peers { .. } => "Failed to get peers"@,
    }
}

/// The diagnostic printed when the query of a flow fails.
pub fn fetch_failure_message(mode: &Mode) -> (r: String)
    ensures
        r@ == spec_fetch_failure_message(*mode),
{
    match mode {
        Mode::ServiceHealth { .. } => "Failed to get service instances".to_owned(),
        Mode::NodeServiceHealth { node, .. } => concat("Failed to get service health on node ", node.as_str()),
        Mode::Leader { .. } => "Failed to get leader".to_owned(),
        Mode::Peers { .. } => "Failed to get peers".to_owned(),
    }
}

/// Whether a check of a node falls within the requested filters: each
/// filter that is given must equal the check's service name or check id.
pub fn matches_filters(
    service_name: &str,
    check_id: &str,
    service: &Option<String>,
    check: &Option<String>,
) -> (r: bool)
    ensures
        r == ((service is None || service->0@ == service_name@) && (check is None || check->0@
            == check_id@)),
{
    let service_ok = match service {
        Some(s) => text_eq(s.as_str(), service_name),
        None => true,
    };
    let check_ok = match check {
        Some(c) => text_eq(c.as_str(), check_id),
        None => true,
    };
    service_ok && check_ok
}

} // verus!
