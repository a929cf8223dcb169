use consul_health::aggregate::{aggregate_checks, aggregate_instances, join_text};
use consul_health::evaluate::{evaluate, fired_rule, Rule, Thresholds, Verdict};
use consul_health::mode::{
    fetch_failure_message, fetch_failure_verdict, matches_filters, select_mode, ConfigError,
    Mode, Settings,
};
use consul_health::model::{CheckRecord, CheckStatus, ServiceInstance};
use consul_health::report::{leader_report, node_health_report, peers_report, service_health_report};
use consul_health::text::decimal_text;

fn check(id: &str, status: &str, output: &str) -> CheckRecord {
    CheckRecord {
        id: id.to_string(),
        status: CheckStatus::parse(status),
        output: output.to_string(),
    }
}

fn instance(node: &str, tags: Option<Vec<&str>>, checks: Vec<CheckRecord>) -> ServiceInstance {
    ServiceInstance {
        service_name: "web".to_string(),
        node_name: node.to_string(),
        tags: tags.map(|t| t.iter().map(|s| s.to_string()).collect()),
        checks,
    }
}

fn bounds(wmin: Option<u64>, wmax: Option<u64>, cmin: Option<u64>, cmax: Option<u64>) -> Thresholds {
    Thresholds { warning_min: wmin, warning_max: wmax, critical_min: cmin, critical_max: cmax }
}

fn settings(mode: &str) -> Settings {
    Settings {
        mode: mode.to_string(),
        service: None,
        tag: None,
        node: None,
        check_id: None,
        expected_leader: None,
        expected_peer_count: None,
        thresholds: Thresholds::default(),
        verbose: false,
        critical_on_error: false,
    }
}

#[test]
fn scenario_three_instances_one_failing() {
    let instances = vec![
        instance("n1", Some(vec!["a", "b"]), vec![check("c1", "passing", "fine")]),
        instance("n2", None, vec![check("c2", "passing", "ok"), check("c3", "passing", "ok")]),
        instance("n3", Some(vec![]), vec![check("c4", "passing", "ok"), check("c5", "critical", "down")]),
    ];
    let r = service_health_report("web", &instances, &bounds(None, None, Some(1), None));
    assert_eq!(r.verdict, Verdict::Okay);
    assert_eq!(
        r.lines,
        vec![
            "OK : 2 passing web service instances",
            "|instance_count=2",
            "web on node n1 (tags: a, b)",
            "Check 'c1' is passing : fine",
            "web on node n2 (tags: )",
            "Check 'c2' is passing : ok",
            "Check 'c3' is passing : ok",
            "web on node n3 (tags: )",
            "Check 'c4' is passing : ok",
            "Check 'c5' is critical : down",
        ]
    );
}

#[test]
fn scenario_no_passing_instance_warns() {
    let instances = vec![instance("n1", None, vec![check("c1", "warning", "slow")])];
    let r = service_health_report("web", &instances, &bounds(Some(1), None, None, None));
    assert_eq!(r.verdict, Verdict::Warning);
    assert_eq!(r.lines[0], "WARNING : Not enough web service instances");
    assert_eq!(r.lines[1], "|instance_count=0");
}

#[test]
fn scenario_leader_mismatch() {
    let r = leader_report("nodeA", &Some("nodeB".to_string()));
    assert_eq!(r.verdict, Verdict::Critical);
    assert_eq!(r.lines, vec!["nodeB is not the expected cluster leader (expected nodeA)"]);
    assert_eq!(r.verdict.exit_code(), 2);
}

#[test]
fn leader_match_and_absent_expectation() {
    let r = leader_report("nodeA", &Some("nodeA".to_string()));
    assert_eq!(r.verdict, Verdict::Okay);
    assert_eq!(r.lines, vec!["Cluster leader is nodeA"]);
    let r = leader_report("nodeA", &None);
    assert_eq!(r.verdict, Verdict::Okay);
    assert_eq!(r.lines, vec!["Cluster leader is nodeA"]);
}

#[test]
fn scenario_peer_count_mismatch() {
    let peers = vec!["10.0.0.1:8300".to_string(), "10.0.0.2:8300".to_string(), "10.0.0.3:8300".to_string()];
    let r = peers_report(&peers, Some(5), &Thresholds::default());
    assert_eq!(r.verdict, Verdict::Critical);
    assert_eq!(
        r.lines,
        vec![
            "CRITICAL : Expected 5 peers in cluster, found 3",
            "|peers=3",
            "10.0.0.1:8300",
            "10.0.0.2:8300",
            "10.0.0.3:8300",
        ]
    );
}

#[test]
fn peers_thresholds_apply_when_count_matches() {
    let peers = vec!["a".to_string(), "b".to_string(), "c".to_string()];
    let r = peers_report(&peers, Some(3), &bounds(None, None, Some(3), None));
    assert_eq!(r.verdict, Verdict::Critical);
    assert_eq!(r.lines[0], "CRITICAL : Not enough peers in cluster");
    let r = peers_report(&peers, None, &Thresholds::default());
    assert_eq!(r.verdict, Verdict::Okay);
    assert_eq!(r.lines[0], "OK : 3 peers in cluster");
    assert_eq!(r.lines[1], "|peers=3");
    let r = peers_report(&peers, None, &bounds(None, Some(3), None, None));
    assert_eq!(r.verdict, Verdict::Warning);
    assert_eq!(r.lines[0], "WARNING : Too many peers in cluster");
}

#[test]
fn scenario_node_mode_without_filters() {
    let mut s = settings("node-service-health");
    s.node = Some("node1".to_string());
    let e = select_mode(&s).unwrap_err();
    assert!(matches!(e, ConfigError::MissingNodeFilter));
    assert_eq!(e.verdict(), Verdict::Unknown);
    assert_eq!(e.verdict().exit_code(), 3);
    assert_eq!(e.message(), "service or check-id must be provided for this check");
}

#[test]
fn mode_selection() {
    let mut s = settings("service-health");
    assert!(matches!(select_mode(&s), Err(ConfigError::MissingService)));
    s.service = Some("web".to_string());
    s.tag = Some("v1".to_string());
    match select_mode(&s) {
        Ok(Mode::ServiceHealth { service, tag }) => {
            assert_eq!(service, "web");
            assert_eq!(tag, Some("v1".to_string()));
        }
        _ => panic!("expected the service-health flow"),
    }
    let s = settings("node-service-health");
    assert!(matches!(select_mode(&s), Err(ConfigError::MissingNode)));
    let mut s = settings("node-service-health");
    s.node = Some("n1".to_string());
    s.check_id = Some("serfHealth".to_string());
    assert!(matches!(select_mode(&s), Ok(Mode::NodeServiceHealth { .. })));
    let mut s = settings("leader");
    s.expected_leader = Some("x".to_string());
    assert!(matches!(select_mode(&s), Ok(Mode::Leader { expected: Some(_) })));
    let mut s = settings("peers");
    s.expected_peer_count = Some(3);
    assert!(matches!(select_mode(&s), Ok(Mode::Peers { expected: Some(3) })));
    let e = select_mode(&settings("")).unwrap_err();
    assert!(matches!(e, ConfigError::MissingMode));
    assert_eq!(e.message(), "No check mode found");
    let e = select_mode(&settings("cluster")).unwrap_err();
    assert_eq!(e.message(), "Unknown check mode cluster");
    let e = select_mode(&settings("service-health")).unwrap_err();
    assert_eq!(e.message(), "service must be provided for this mode");
    let e = select_mode(&settings("node-service-health")).unwrap_err();
    assert_eq!(e.message(), "node must be provided in this mode");
}

#[test]
fn critical_min_wins_over_warning_min() {
    let t = bounds(Some(10), None, Some(5), None);
    assert_eq!(fired_rule(3, &t), Rule::CriticalMin);
    assert_eq!(evaluate(3, &t), Verdict::Critical);
    assert_eq!(evaluate(7, &t), Verdict::Warning);
    assert_eq!(evaluate(11, &t), Verdict::Okay);
}

#[test]
fn minimum_wins_over_maximum() {
    let t = bounds(None, Some(2), Some(4), Some(3));
    assert_eq!(fired_rule(4, &t), Rule::CriticalMin);
    let t = bounds(Some(4), Some(2), None, None);
    assert_eq!(fired_rule(3, &t), Rule::WarningMin);
    assert_eq!(evaluate(3, &t), Verdict::Warning);
}

#[test]
fn bounds_are_inclusive() {
    assert_eq!(evaluate(5, &bounds(None, None, Some(5), None)), Verdict::Critical);
    assert_eq!(evaluate(5, &bounds(Some(5), None, None, None)), Verdict::Warning);
    assert_eq!(evaluate(5, &bounds(None, None, None, Some(5))), Verdict::Critical);
    assert_eq!(evaluate(5, &bounds(None, Some(5), None, None)), Verdict::Warning);
    assert_eq!(evaluate(6, &bounds(None, None, Some(5), None)), Verdict::Okay);
    assert_eq!(evaluate(4, &bounds(None, Some(5), None, Some(6))), Verdict::Okay);
}

#[test]
fn no_bounds_is_always_ok() {
    for c in [0u64, 1, 7, u64::MAX] {
        assert_eq!(evaluate(c, &Thresholds::default()), Verdict::Okay);
        assert_eq!(fired_rule(c, &Thresholds::default()), Rule::WithinBounds);
    }
}

#[test]
fn evaluation_is_deterministic() {
    let t = bounds(Some(2), Some(9), Some(1), Some(12));
    for c in 0u64..15 {
        assert_eq!(evaluate(c, &t), evaluate(c, &t));
    }
}

#[test]
fn passing_count_bounded_by_instances() {
    let all = vec![
        instance("n1", None, vec![check("c", "passing", "")]),
        instance("n2", None, vec![]),
    ];
    let (count, _) = aggregate_instances(&all);
    assert_eq!(count, 2);
    let some = vec![
        instance("n1", None, vec![check("c", "passing", "")]),
        instance("n2", None, vec![check("c", "Passing", "")]),
    ];
    let (count, _) = aggregate_instances(&some);
    assert_eq!(count, 1);
    assert!(count < some.len() as u64);
}

#[test]
fn empty_input_aggregates_to_nothing() {
    let (count, lines) = aggregate_instances(&vec![]);
    assert_eq!(count, 0);
    assert!(lines.is_empty());
    let (count, lines) = aggregate_checks(&vec![]);
    assert_eq!(count, 0);
    assert!(lines.is_empty());
}

#[test]
fn report_is_reproducible() {
    let instances = vec![instance("n1", Some(vec!["x"]), vec![check("c1", "critical", "no")])];
    let t = bounds(Some(0), None, None, None);
    let a = service_health_report("web", &instances, &t);
    let b = service_health_report("web", &instances, &t);
    assert_eq!(a.verdict, b.verdict);
    assert_eq!(a.lines, b.lines);
}

#[test]
fn node_report_with_trailer() {
    let checks = vec![
        check("serfHealth", "passing", "alive"),
        check("svc:web", "warning", "slow"),
        check("svc:db", "maintenance", "paused"),
    ];
    let r = node_health_report(&Some("web".to_string()), &None, &checks, &Thresholds::default());
    assert_eq!(r.verdict, Verdict::Okay);
    assert_eq!(
        r.lines,
        vec![
            "OK : 1 passing checks",
            "|passing_check_count=1",
            "Check 'serfHealth' is passing : alive",
            "Check 'svc:web' is warning : slow",
            "Check 'svc:db' is maintenance : paused",
            "",
            "(Filtered ServiceName : web, CheckID : None)",
        ]
    );
    let r = node_health_report(&None, &Some("serfHealth".to_string()), &checks, &bounds(None, None, None, Some(1)));
    assert_eq!(r.verdict, Verdict::Critical);
    assert_eq!(r.lines[0], "CRITICAL : Too many passing checks");
    assert_eq!(r.lines[6], "(Filtered ServiceName : None, CheckID : serfHealth)");
}

#[test]
fn status_words() {
    assert!(matches!(CheckStatus::parse("passing"), CheckStatus::Passing));
    assert!(matches!(CheckStatus::parse("warning"), CheckStatus::Warning));
    assert!(matches!(CheckStatus::parse("critical"), CheckStatus::Critical));
    let other = CheckStatus::parse("PASSING");
    assert!(matches!(other, CheckStatus::Unknown(_)));
    assert!(!other.is_passing());
    assert_eq!(other.as_text(), "PASSING");
    assert!(CheckStatus::Unknown("passing".to_string()).is_passing());
    assert!(!CheckStatus::Critical.is_passing());
    assert_eq!(CheckStatus::Warning.as_text(), "warning");
}

#[test]
fn decimal_rendering() {
    assert_eq!(decimal_text(0), "0");
    assert_eq!(decimal_text(7), "7");
    assert_eq!(decimal_text(10), "10");
    assert_eq!(decimal_text(4096), "4096");
    assert_eq!(decimal_text(u64::MAX), "18446744073709551615");
}

#[test]
fn tag_joining() {
    let parts = vec!["a".to_string(), "b".to_string(), "c".to_string()];
    assert_eq!(join_text(&parts, ", "), "a, b, c");
    assert_eq!(join_text(&vec![], ", "), "");
    assert_eq!(join_text(&vec!["solo".to_string()], ", "), "solo");
}

#[test]
fn exit_codes_and_fetch_failures() {
    assert_eq!(Verdict::Okay.exit_code(), 0);
    assert_eq!(Verdict::Warning.exit_code(), 1);
    assert_eq!(Verdict::Critical.exit_code(), 2);
    assert_eq!(Verdict::Unknown.exit_code(), 3);
    assert_eq!(fetch_failure_verdict(true), Verdict::Critical);
    assert_eq!(fetch_failure_verdict(false), Verdict::Unknown);
    let m = Mode::NodeServiceHealth { node: "n7".to_string(), service: None, check_id: None };
    assert_eq!(fetch_failure_message(&m), "Failed to get service health on node n7");
    assert_eq!(fetch_failure_message(&Mode::Leader { expected: None }), "Failed to get leader");
    assert_eq!(fetch_failure_message(&Mode::Peers { expected: None }), "Failed to get peers");
    let m = Mode::ServiceHealth { service: "web".to_string(), tag: None };
    assert_eq!(fetch_failure_message(&m), "Failed to get service instances");
}

#[test]
fn node_filters() {
    let web = Some("web".to_string());
    let id = Some("c1".to_string());
    assert!(matches_filters("web", "c1", &web, &id));
    assert!(matches_filters("web", "c9", &web, &None));
    assert!(!matches_filters("db", "c1", &web, &None));
    assert!(!matches_filters("web", "c2", &None, &id));
    assert!(matches_filters("db", "c2", &None, &None));
}
