//! Rendering of verdicts into monitoring-plugin reports.
use vstd::prelude::*;
use crate::aggregate::{
    aggregate_checks, aggregate_instances, check_lines, count_healthy, count_passing,
    instance_lines, views,
};
use crate::evaluate::{fired_rule, spec_fired_rule, Rule, Thresholds, Verdict};
use crate::model::{CheckRecord, ServiceInstance};
use crate::text::{concat, decimal, decimal_text, text_eq};

verus! {

/// A finished report: its verdict and the lines to print, in order.
#[derive(Debug, Clone)]
pub struct Report {
    pub verdict: Verdict,
    pub lines: Vec<String>,
}

/// The line that opens a report: `{LEVEL} : {headline}`.
pub open spec fn status_line(verdict: Verdict, headline: Seq<char>) -> Seq<char> {
    verdict.spec_level_word() + " : "@ + headline
}

/// The perfdata line: `|{label}={count}`.
pub open spec fn perfdata_line(label: Seq<char>, count: nat) -> Seq<char> {
    "|"@ + label + "="@ + decimal(count)
}

/// Status line, perfdata line, then the detail lines verbatim.
pub open spec fn report_lines(
    verdict: Verdict,
    headline: Seq<char>,
    count: nat,
    details: Seq<Seq<char>>,
    label: Seq<char>,
) -> Seq<Seq<char>> {
    seq![status_line(verdict, headline), perfdata_line(label, count)] + details
}

/// The headline for the rule that fired: what there is not enough or too
/// many of, or the count itself when no bound was reached.
pub open spec fn threshold_headline(
    rule: Rule,
    count: nat,
    bound_noun: Seq<char>,
    ok_noun: Seq<char>,
) -> Seq<char> {
    match rule {
        Rule::CriticalMin | Rule::WarningMin => "Not enough "@ + bound_noun,
        Rule::CriticalMax | Rule::WarningMax => "Too many "@ + bound_noun,
        Rule::WithinBounds => decimal(count) + " "@ + ok_noun,
    }
}

fn status_text(verdict: Verdict, headline: &str) -> (r: String)
    ensures
        r@ == status_line(verdict, headline@),
{
    let mut r = verdict.level_word();
    r.append(" : ");
    r.append(headline);
    r
}

fn perfdata_text(label: &str, count: u64) -> (r: String)
    ensures
        r@ == perfdata_line(label@, count as nat),
{
    let mut r = concat("|", label);
    r.append("=");
    let d = decimal_text(count);
    r.append(d.as_str());
    r
}

/// Builds a report from a verdict, its headline, the count and the details.
pub fn format_report(verdict: Verdict, headline: &str, count: u64, details: Vec<String>, label: &str)
    -> (r: Report)
    ensures
        r.verdict == verdict,
        views(r.lines@) == report_lines(verdict, headline@, count as nat, views(details@), label@),
{
    let mut lines: Vec<String> = Vec::new();
    lines.push(status_text(verdict, headline));
    lines.push(perfdata_text(label, count));
    let mut rest = details;
    lines.append(&mut rest);
    assert(views(lines@) =~= report_lines(verdict, headline@, count as nat, views(details@), label@));
    Report { verdict, lines }
}

/// The headline for the rule that fired.
pub fn headline_for(rule: Rule, count: u64, bound_noun: &str, ok_noun: &str) -> (r: String)
    ensures
        r@ == threshold_headline(rule, count as nat, bound_noun@, ok_noun@),
{
    match rule {
        Rule::CriticalMin | Rule::WarningMin => concat("Not enough ", bound_noun),
        Rule::CriticalMax | Rule::WarningMax => concat("Too many ", bound_noun),
        Rule::WithinBounds => {
            let mut r = decimal_text(count);
            r.append(" ");
            r.append(ok_noun);
            r
        },
    }
}

pub open spec fn service_bound_noun(service: Seq<char>) -> Seq<char> {
    service + " service instances"@
}

pub open spec fn service_ok_noun(service: Seq<char>) -> Seq<char> {
    "passing "@ + service + " service instances"@
}

/// The report of the service-health flow.
pub open spec fn spec_service_report(
    service: Seq<char>,
    instances: Seq<ServiceInstance>,
    t: Thresholds,
) -> (Verdict, Seq<Seq<char>>) {
    let count = count_healthy(instances);
    let rule = spec_fired_rule(count as u64, t);
    (
        rule.spec_verdict(),
        report_lines(
            rule.spec_verdict(),
            threshold_headline(rule, count, service_bound_noun(service), service_ok_noun(service)),
            count,
            instance_lines(instances),
            "instance_count"@,
        ),
    )
}

/// Evaluates the instances of a service: counts the healthy ones, judges
/// the count against the bounds, and reports every instance and check.
pub fn service_health_report(service: &str, instances: &Vec<ServiceInstance>, t: &Thresholds)
    -> (r: Report)
    ensures
        (r.verdict, views(r.lines@)) == spec_service_report(service@, instances@, *t),
{
    let (count, details) = aggregate_instances(instances);
    let rule = fired_rule(count, t);
    let bound_noun = concat(service, " service instances");
    let mut ok_noun = concat("passing ", service);
    ok_noun.append(" service instances");
    let headline = headline_for(rule, count, bound_noun.as_str(), ok_noun.as_str());
    format_report(rule.verdict(), headline.as_str(), count, details, "instance_count")
}

/// A filter as echoed in the trailer: its value, or `None`.
pub open spec fn filter_text(f: Option<String>) -> Seq<char> {
    match f {
        Some(s) => s@,
        None => "None"@,
    }
}

/// `(Filtered ServiceName : {service}, CheckID : {check})`
pub open spec fn filter_trailer(service: Option<String>, check_id: Option<String>) -> Seq<char> {
    "(Filtered ServiceName : "@ + filter_text(service) + ", CheckID : "@ + filter_text(check_id)
        + ")"@
}

/// The report of the node-health flow.
pub open spec fn spec_node_report(
    service: Option<String>,
    check_id: Option<String>,
    checks: Seq<CheckRecord>,
    t: Thresholds,
) -> (Verdict, Seq<Seq<char>>) {
    let count = count_passing(checks);
    let rule = spec_fired_rule(count as u64, t);
    (
        rule.spec_verdict(),
        report_lines(
            rule.spec_verdict(),
            threshold_headline(rule, count, "passing checks"@, "passing checks"@),
            count,
            check_lines(checks),
            "passing_check_count"@,
        ) + seq![Seq::empty(), filter_trailer(service, check_id)],
    )
}

fn filter_part(f: &Option<String>) -> (r: String)
    ensures
        r@ == filter_text(*f),
{
    match f {
        Some(s) => s.clone(),
        None => "None".to_owned(),
    }
}

/// Evaluates the checks of a node: counts the passing ones, judges the
/// count against the bounds, reports every check and echoes the filters.
pub fn node_health_report(
    service: &Option<String>,
    check_id: &Option<String>,
    checks: &Vec<CheckRecord>,
    t: &Thresholds,
) -> (r: Report)
    ensures
        (r.verdict, views(r.lines@)) == spec_node_report(*service, *check_id, checks@, *t),
{
    let (count, details) = aggregate_checks(checks);
    let rule = fired_rule(count, t);
    let headline = headline_for(rule, count, "passing checks", "passing checks");
    let mut report = format_report(
        rule.verdict(),
        headline.as_str(),
        count,
        details,
        "passing_check_count",
    );
    let ghost before = report.lines@;
    report.lines.push(String::new());
    let mut trailer = concat("(Filtered ServiceName : ", filter_part(service).as_str());
    trailer.append(", CheckID : ");
    trailer.append(filter_part(check_id).as_str());
    trailer.append(")");
    report.lines.push(trailer);
    assert(views(report.lines@) =~= views(before) + seq![Seq::empty(), filter_trailer(*service, *check_id)]);
    report
}

/// The report of the leader flow: Critical exactly when an expected leader
/// is given and differs from the observed one. Its one line is the message
/// alone, with no level word, perfdata or detail.
pub open spec fn spec_leader_report(observed: Seq<char>, expected: Option<String>) -> (
    Verdict,
    Seq<Seq<char>>,
) {
    match expected {
        Some(e) if e@ != observed => (
            Verdict::Critical,
            seq![e@ + " is not the expected cluster leader (expected "@ + observed + ")"@],
        ),
        _ => (Verdict::Okay, seq!["Cluster leader is "@ + observed]),
    }
}

/// Judges the observed cluster leader against the expected one.
pub fn leader_report(observed: &str, expected: &Option<String>) -> (r: Report)
    ensures
        (r.verdict, views(r.lines@)) == spec_leader_report(observed@, *expected),
{
    let mut lines: Vec<String> = Vec::new();
    match expected {
        Some(e) => {
            if !text_eq(e.as_str(), observed) {
                let mut h = concat(e.as_str(), " is not the expected cluster leader (expected ");
                h.append(observed);
                h.append(")");
                lines.push(h);
                assert(views(lines@) =~= spec_leader_report(observed@, *expected).1);
                return Report { verdict: Verdict::Critical, lines };
            }
        },
        None => {},
    }
    let h = concat("Cluster leader is ", observed);
    lines.push(h);
    assert(views(lines@) =~= spec_leader_report(observed@, *expected).1);
    Report { verdict: Verdict::Okay, lines }
}

/// The report of the peers flow. A given expected peer count that differs
/// from the observed one forces Critical; otherwise the bounds decide.
pub open spec fn spec_peers_report(peers: Seq<String>, expected: Option<u64>, t: Thresholds) -> (
    Verdict,
    Seq<Seq<char>>,
) {
    let n = peers.len();
    if expected is Some && expected->0 != n {
        (
            Verdict::Critical,
            report_lines(
                Verdict::Critical,
                "Expected "@ + decimal(expected->0 as nat) + " peers in cluster, found "@ + decimal(
                    n,
                ),
                n,
                views(peers),
                "peers"@,
            ),
        )
    } else {
        let rule = spec_fired_rule(n as u64, t);
        (
            rule.spec_verdict(),
            report_lines(
                rule.spec_verdict(),
                threshold_headline(rule, n, "peers in cluster"@, "peers in cluster"@),
                n,
                views(peers),
                "peers"@,
            ),
        )
    }
}

/// Judges the observed peers against the expected count and the bounds,
/// and lists each peer.
pub fn peers_report(peers: &Vec<String>, expected: Option<u64>, t: &Thresholds) -> (r: Report)
    ensures
        (r.verdict, views(r.lines@)) == spec_peers_report(peers@, expected, *t),
{
    let n = peers.len() as u64;
    let details = peers.clone();
    assert(details@ =~= peers@);
    match expected {
        Some(e) => {
            if e != n {
                let mut h = concat("Expected ", decimal_text(e).as_str());
                h.append(" peers in cluster, found ");
                h.append(decimal_text(n).as_str());
                return format_report(Verdict::Critical, h.as_str(), n, details, "peers");
            }
        },
        None => {},
    }
    let rule = fired_rule(n, t);
    let h = headline_for(rule, n, "peers in cluster", "peers in cluster");
    format_report(rule.verdict(), h.as_str(), n, details, "peers")
}

/// Aggregating and formatting the same input twice gives the same report,
/// line for line, in the service-health and the node-health flows.
pub proof fn lemma_report_reproducible(
    service1: Seq<char>,
    instances1: Seq<ServiceInstance>,
    service2: Seq<char>,
    instances2: Seq<ServiceInstance>,
    filter_service: Option<String>,
    filter_check: Option<String>,
    checks1: Seq<CheckRecord>,
    checks2: Seq<CheckRecord>,
    t: Thresholds,
)
    requires
        service1 == service2,
        instances1 == instances2,
        checks1 == checks2,
    ensures
        spec_service_report(service1, instances1, t) == spec_service_report(service2, instances2, t),
        spec_node_report(filter_service, filter_check, checks1, t) == spec_node_report(
            filter_service,
            filter_check,
            checks2,
            t,
        ),
{
}

} // verus!
