//! Reduction of health-check collections to a passing count and detail lines.
use vstd::prelude::*;
use crate::model::{CheckRecord, ServiceInstance};
use crate::text::concat;

verus! {

/// The text of each line.
pub open spec fn views(lines: Seq<String>) -> Seq<Seq<char>> {
    lines.map_values(|l: String| l@)
}

/// `parts` joined with `sep` between neighbours.
pub open spec fn join(parts: Seq<Seq<char>>, sep: Seq<char>) -> Seq<char>
    decreases parts.len(),
{
    if parts.len() == 0 {
        Seq::empty()
    } else if parts.len() == 1 {
        parts[0]
    } else {
        join(parts.drop_last(), sep) + sep + parts.last()
    }
}

/// The tags of an instance, comma-joined; empty where there are none.
pub open spec fn tags_text(tags: Option<Vec<String>>) -> Seq<char> {
    match tags {
        Some(v) => join(views(v@), ", "@),
        None => Seq::empty(),
    }
}

/// `{service} on node {node} (tags: {tags})`
pub open spec fn header_line(inst: ServiceInstance) -> Seq<char> {
    inst.service_name@ + " on node "@ + inst.node_name@ + " (tags: "@ + tags_text(inst.tags)
        + ")"@
}

/// `Check '{id}' is {status} : {output}`
pub open spec fn check_line(c: CheckRecord) -> Seq<char> {
    "Check '"@ + c.id@ + "' is "@ + c.status.text() + " : "@ + c.output@
}

pub open spec fn check_lines(checks: Seq<CheckRecord>) -> Seq<Seq<char>> {
    checks.map_values(|c: CheckRecord| check_line(c))
}

/// For each instance in order, its header line followed by one line per check.
pub open spec fn instance_lines(s: Seq<ServiceInstance>) -> Seq<Seq<char>>
    decreases s.len(),
{
    if s.len() == 0 {
        Seq::empty()
    } else {
        instance_lines(s.drop_last()) + seq![header_line(s.last())] + check_lines(s.last().checks@)
    }
}

/// The number of healthy instances.
pub open spec fn count_healthy(s: Seq<ServiceInstance>) -> nat
    decreases s.len(),
{
    if s.len() == 0 {
        0
    } else {
        count_healthy(s.drop_last()) + if s.last().healthy() {
            1nat
        } else {
            0nat
        }
    }
}

/// The number of passing checks.
pub open spec fn count_passing(s: Seq<CheckRecord>) -> nat
    decreases s.len(),
{
    if s.len() == 0 {
        0
    } else {
        count_passing(s.drop_last()) + if s.last().status.spec_is_passing() {
            1nat
        } else {
            0nat
        }
    }
}

/// The passing count never exceeds the number of instances, and equals it
/// exactly when no instance has a failing check.
pub proof fn lemma_passing_count_bounds(s: Seq<ServiceInstance>)
    ensures
        count_healthy(s) <= s.len(),
        (count_healthy(s) == s.len()) == (forall|i: int| 0 <= i < s.len() ==> #[trigger] s[i].healthy()),
    decreases s.len(),
{
    if s.len() > 0 {
        let p = s.drop_last();
        lemma_passing_count_bounds(p);
        assert forall|i: int| 0 <= i < p.len() implies #[trigger] p[i] == s[i] by {}
        if count_healthy(s) == s.len() {
            assert forall|i: int| 0 <= i < s.len() implies #[trigger] s[i].healthy() by {
                if i < p.len() {
                    assert(p[i].healthy());
                }
            }
        }
        if forall|i: int| 0 <= i < s.len() ==> #[trigger] s[i].healthy() {
            assert(s[s.len() - 1].healthy());
            assert forall|i: int| 0 <= i < p.len() implies #[trigger] p[i].healthy() by {
                assert(s[i].healthy());
            }
        }
    }
}

/// The passing count of checks never exceeds their number.
pub proof fn lemma_passing_checks_bounded(s: Seq<CheckRecord>)
    ensures
        count_passing(s) <= s.len(),
    decreases s.len(),
{
    if s.len() > 0 {
        lemma_passing_checks_bounded(s.drop_last());
    }
}

/// Joins texts with a separator.
pub fn join_text(parts: &Vec<String>, sep: &str) -> (r: String)
    ensures
        r@ == join(views(parts@), sep@),
{
    let mut r = String::new();
    let mut i: usize = 0;
    while i < parts.len()
        invariant
            i <= parts@.len(),
            r@ == join(views(parts@.subrange(0, i as int)), sep@),
        decreases parts@.len() - i,
    {
        let ghost prev = views(parts@.subrange(0, i as int));
        let ghost next = views(parts@.subrange(0, i + 1));
        assert(next.drop_last() =~= prev);
        if i > 0 {
            r.append(sep);
        }
        r.append(parts[i].as_str());
        proof {
            assert(next.len() == i + 1);
            assert(next.last() == parts@[i as int]@);
            if i == 0 {
                assert(r@ =~= next[0]);
            }
        }
        i = i + 1;
    }
    assert(parts@.subrange(0, parts@.len() as int) =~= parts@);
    r
}

fn tags_line_part(tags: &Option<Vec<String>>) -> (r: String)
    ensures
        r@ == tags_text(*tags),
{
    match tags {
        Some(v) => join_text(v, ", "),
        None => String::new(),
    }
}

/// The header line of an instance.
pub fn instance_header(inst: &ServiceInstance) -> (r: String)
    ensures
        r@ == header_line(*inst),
{
    let mut r = inst.service_name.clone();
    r.append(" on node ");
    r.append(inst.node_name.as_str());
    r.append(" (tags: ");
    let t = tags_line_part(&inst.tags);
    r.append(t.as_str());
    r.append(")");
    r
}

/// The detail line of one check.
pub fn check_detail(c: &CheckRecord) -> (r: String)
    ensures
        r@ == check_line(*c),
{
    let mut r = concat("Check '", c.id.as_str());
    r.append("' is ");
    let st = c.status.as_text();
    r.append(st.as_str());
    r.append(" : ");
    r.append(c.output.as_str());
    r
}

/// Whether every check of the instance passes.
pub fn instance_healthy(inst: &ServiceInstance) -> (r: bool)
    ensures
        r == inst.healthy(),
{
    let mut i: usize = 0;
    while i < inst.checks.len()
        invariant
            i <= inst.checks@.len(),
            forall|k: int| 0 <= k < i ==> #[trigger] inst.checks@[k].status.spec_is_passing(),
        decreases inst.checks@.len() - i,
    {
        if !inst.checks[i].status.is_passing() {
            return false;
        }
        i = i + 1;
    }
    true
}

/// Appends the detail line of each check, in order.
fn push_check_lines(lines: &mut Vec<String>, checks: &Vec<CheckRecord>)
    ensures
        views(final(lines)@) == views(old(lines)@) + check_lines(checks@),
{
    let ghost start = views(lines@);
    let mut j: usize = 0;
    while j < checks.len()
        invariant
            j <= checks@.len(),
            views(lines@) == start + check_lines(checks@.subrange(0, j as int)),
        decreases checks@.len() - j,
    {
        let ghost before = lines@;
        let l = check_detail(&checks[j]);
        lines.push(l);
        proof {
            assert(views(lines@) =~= views(before).push(l@));
            assert(check_lines(checks@.subrange(0, j + 1)) =~= check_lines(
                checks@.subrange(0, j as int),
            ).push(check_line(checks@[j as int])));
        }
        j = j + 1;
    }
    assert(checks@.subrange(0, checks@.len() as int) =~= checks@);
}

/// The number of healthy instances, and the detail lines of all of them:
/// for each instance its header, then one line per check.
pub fn aggregate_instances(instances: &Vec<ServiceInstance>) -> (r: (u64, Vec<String>))
    ensures
        r.0 == count_healthy(instances@),
        views(r.1@) == instance_lines(instances@),
{
    let mut count: u64 = 0;
    let mut lines: Vec<String> = Vec::new();
    let mut i: usize = 0;
    while i < instances.len()
        invariant
            i <= instances@.len(),
            count == count_healthy(instances@.subrange(0, i as int)),
            views(lines@) == instance_lines(instances@.subrange(0, i as int)),
        decreases instances@.len() - i,
    {
        let ghost prev = instances@.subrange(0, i as int);
        let ghost next = instances@.subrange(0, i + 1);
        assert(next.drop_last() =~= prev);
        assert(next.last() == instances@[i as int]);
        proof {
            lemma_passing_count_bounds(prev);
        }
        let inst = &instances[i];
        if instance_healthy(inst) {
            count = count + 1;
        }
        let ghost before = lines@;
        let h = instance_header(inst);
        lines.push(h);
        assert(views(lines@) =~= views(before).push(h@));
        push_check_lines(&mut lines, &inst.checks);
        assert(views(lines@) =~= instance_lines(next));
        i = i + 1;
    }
    assert(instances@.subrange(0, instances@.len() as int) =~= instances@);
    (count, lines)
}

/// The number of passing checks, and one detail line per check.
pub fn aggregate_checks(checks: &Vec<CheckRecord>) -> (r: (u64, Vec<String>))
    ensures
        r.0 == count_passing(checks@),
        views(r.1@) == check_lines(checks@),
{
    let mut count: u64 = 0;
    let mut i: usize = 0;
    while i < checks.len()
        invariant
            i <= checks@.len(),
            count == count_passing(checks@.subrange(0, i as int)),
        decreases checks@.len() - i,
    {
        let ghost prev = checks@.subrange(0, i as int);
        let ghost next = checks@.subrange(0, i + 1);
        assert(next.drop_last() =~= prev);
        proof {
            lemma_passing_checks_bounded(prev);
        }
        if checks[i].status.is_passing() {
            count = count + 1;
        }
        i = i + 1;
    }
    assert(checks@.subrange(0, checks@.len() as int) =~= checks@);
    let mut lines: Vec<String> = Vec::new();
    push_check_lines(&mut lines, checks);
    assert(views(lines@) =~= check_lines(checks@));
    (count, lines)
}

} // verus!
