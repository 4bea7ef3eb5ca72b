//! The report aggregator: histograms of a result set and the structured
//! report document.
use vstd::prelude::*;
use crate::evaluate::MonitorConfig;
use crate::gateway::json_get2;
use crate::json::{Json, entries_lookup, json_get, json_int, object_entries};
use crate::model::{issue_name, power_state_name, tools_status_name};
use crate::model::{IssueKind, PowerState, SnapshotView, ToolsStatus, VmSnapshot};
use crate::results::{MonitoringMode, MonitoringResults, snapshots_view};

verus! {

/// A property of a snapshot that a histogram counts.
#[derive(Clone, Copy, Debug, PartialEq, Eq, Structural)]
pub enum Criterion {
    Power(PowerState),
    /// Powered on with tooling running.
    ToolsRunning,
    /// Powered on with tooling not running or in an unknown state.
    ToolsNotRunning,
    Issue(IssueKind),
}

pub open spec fn meets(s: SnapshotView, c: Criterion) -> bool {
    match c {
        Criterion::Power(p) => s.power_state == p,
        Criterion::ToolsRunning => s.power_state == PowerState::PoweredOn
            && s.tools_running_status == ToolsStatus::Running,
        Criterion::ToolsNotRunning => s.power_state == PowerState::PoweredOn
            && s.tools_running_status != ToolsStatus::Running,
        Criterion::Issue(k) => s.issues.contains(k),
    }
}

/// How many snapshots meet `c`.
pub open spec fn count_meeting(s: Seq<SnapshotView>, c: Criterion) -> nat
    decreases s.len(),
{
    if s.len() == 0 {
        0
    } else {
        count_meeting(s.drop_last(), c) + if meets(s.last(), c) {
            1nat
        } else {
            0nat
        }
    }
}

pub proof fn lemma_count_bounded(s: Seq<SnapshotView>, c: Criterion)
    ensures
        count_meeting(s, c) <= s.len(),
    decreases s.len(),
{
    if s.len() > 0 {
        lemma_count_bounded(s.drop_last(), c);
    }
}

fn snapshot_meets(s: &VmSnapshot, c: Criterion) -> (r: bool)
    ensures
        r == meets(s@, c),
{
    match c {
        Criterion::Power(p) => s.power_state == p,
        Criterion::ToolsRunning => s.power_state == PowerState::PoweredOn
            && s.tools_running_status == ToolsStatus::Running,
        Criterion::ToolsNotRunning => s.power_state == PowerState::PoweredOn
            && s.tools_running_status != ToolsStatus::Running,
        Criterion::Issue(k) => s.has_issue(k),
    }
}

/// Counts the snapshots that meet `c`.
pub fn count_snapshots(v: &Vec<VmSnapshot>, c: Criterion) -> (r: u64)
    ensures
        r == count_meeting(snapshots_view(v@), c),
{
    let ghost all = snapshots_view(v@);
    let mut n: u64 = 0;
    let mut i: usize = 0;
    while i < v.len()
        invariant
            i <= v.len(),
            all == snapshots_view(v@),
            n == count_meeting(all.subrange(0, i as int), c),
        decreases v.len() - i,
    {
        proof {
            assert(all.subrange(0, i + 1).drop_last() =~= all.subrange(0, i as int));
            lemma_count_bounded(all.subrange(0, i as int), c);
        }
        if snapshot_meets(&v[i], c) {
            n = n + 1;
        }
        i += 1;
    }
    assert(all.subrange(0, i as int) =~= all);
    n
}

/// Power-state histogram.
#[derive(Clone, Copy, Debug, PartialEq, Eq, Structural)]
pub struct PowerHistogram {
    pub powered_on: u64,
    pub powered_off: u64,
    pub suspended: u64,
}

/// Tooling histogram, among powered-on machines.
#[derive(Clone, Copy, Debug, PartialEq, Eq, Structural)]
pub struct ToolsHistogram {
    pub running: u64,
    pub not_running: u64,
}

/// Issue-tag histogram: how many snapshots carry each tag.
#[derive(Clone, Copy, Debug, PartialEq, Eq, Structural)]
pub struct IssueHistogram {
    pub cpu_high: u64,
    pub memory_high: u64,
    pub powered_off: u64,
    pub suspended: u64,
    pub tools_not_running: u64,
    pub uptime_short: u64,
}

impl IssueHistogram {
    pub open spec fn spec_count(self, k: IssueKind) -> u64 {
        match k {
            IssueKind::CpuHigh => self.cpu_high,
            IssueKind::MemoryHigh => self.memory_high,
            IssueKind::PoweredOff => self.powered_off,
            IssueKind::Suspended => self.suspended,
            IssueKind::ToolsNotRunning => self.tools_not_running,
            IssueKind::UptimeShort => self.uptime_short,
        }
    }

    pub fn count(&self, k: IssueKind) -> (r: u64)
        ensures
            r == self.spec_count(k),
    {
        match k {
            IssueKind::CpuHigh => self.cpu_high,
            IssueKind::MemoryHigh => self.memory_high,
            IssueKind::PoweredOff => self.powered_off,
            IssueKind::Suspended => self.suspended,
            IssueKind::ToolsNotRunning => self.tools_not_running,
            IssueKind::UptimeShort => self.uptime_short,
        }
    }
}

pub open spec fn power_histogram_of(s: Seq<SnapshotView>) -> PowerHistogram {
    PowerHistogram {
        powered_on: count_meeting(s, Criterion::Power(PowerState::PoweredOn)) as u64,
        powered_off: count_meeting(s, Criterion::Power(PowerState::PoweredOff)) as u64,
        suspended: count_meeting(s, Criterion::Power(PowerState::Suspended)) as u64,
    }
}

pub open spec fn tools_histogram_of(s: Seq<SnapshotView>) -> ToolsHistogram {
    ToolsHistogram {
        running: count_meeting(s, Criterion::ToolsRunning) as u64,
        not_running: count_meeting(s, Criterion::ToolsNotRunning) as u64,
    }
}

pub open spec fn issue_histogram_of(s: Seq<SnapshotView>) -> IssueHistogram {
    IssueHistogram {
        cpu_high: count_meeting(s, Criterion::Issue(IssueKind::CpuHigh)) as u64,
        memory_high: count_meeting(s, Criterion::Issue(IssueKind::MemoryHigh)) as u64,
        powered_off: count_meeting(s, Criterion::Issue(IssueKind::PoweredOff)) as u64,
        suspended: count_meeting(s, Criterion::Issue(IssueKind::Suspended)) as u64,
        tools_not_running: count_meeting(s, Criterion::Issue(IssueKind::ToolsNotRunning)) as u64,
        uptime_short: count_meeting(s, Criterion::Issue(IssueKind::UptimeShort)) as u64,
    }
}

impl MonitoringResults {
    /// Power states of all evaluated machines.
    pub fn power_histogram(&self) -> (r: PowerHistogram)
        ensures
            r == power_histogram_of(self@.statuses),
    {
        PowerHistogram {
            powered_on: count_snapshots(&self.vm_statuses, Criterion::Power(PowerState::PoweredOn)),
            powered_off: count_snapshots(
                &self.vm_statuses,
                Criterion::Power(PowerState::PoweredOff),
            ),
            suspended: count_snapshots(&self.vm_statuses, Criterion::Power(PowerState::Suspended)),
        }
    }

    /// Tooling states of the powered-on machines.
    pub fn tools_histogram(&self) -> (r: ToolsHistogram)
        ensures
            r == tools_histogram_of(self@.statuses),
    {
        ToolsHistogram {
            running: count_snapshots(&self.vm_statuses, Criterion::ToolsRunning),
            not_running: count_snapshots(&self.vm_statuses, Criterion::ToolsNotRunning),
        }
    }

    /// Issue tags over the machines with issues.
    pub fn issue_histogram(&self) -> (r: IssueHistogram)
        ensures
            r == issue_histogram_of(self@.with_issues),
    {
        let v = &self.vms_with_issues;
        IssueHistogram {
            cpu_high: count_snapshots(v, Criterion::Issue(IssueKind::CpuHigh)),
            memory_high: count_snapshots(v, Criterion::Issue(IssueKind::MemoryHigh)),
            powered_off: count_snapshots(v, Criterion::Issue(IssueKind::PoweredOff)),
            suspended: count_snapshots(v, Criterion::Issue(IssueKind::Suspended)),
            tools_not_running: count_snapshots(v, Criterion::Issue(IssueKind::ToolsNotRunning)),
            uptime_short: count_snapshots(v, Criterion::Issue(IssueKind::UptimeShort)),
        }
    }
}

/// An object member.
pub fn member(key: &str, value: Json) -> (r: (String, Json))
    ensures
        r.0@ == key@,
        r.1 == value,
{
    (String::from_str(key), value)
}

pub open spec fn is_str(j: Json, s: Seq<char>) -> bool {
    j matches Json::Str(x) && x@ == s
}

pub open spec fn is_opt_str(j: Json, s: Option<Seq<char>>) -> bool {
    match s {
        Some(t) => is_str(j, t),
        None => j is Null,
    }
}

pub open spec fn is_num(j: Json, n: int) -> bool {
    j == Json::Number(n as i128)
}

pub open spec fn has_member(entries: Seq<(String, Json)>, i: int, key: Seq<char>) -> bool {
    0 <= i < entries.len() && entries[i].0@ == key
}

/// The issue list as an array of tag names.
pub open spec fn is_issue_list(j: Json, issues: Seq<IssueKind>) -> bool {
    j matches Json::Array(v) && v@.len() == issues.len() && forall|k: int|
        0 <= k < issues.len() ==> is_str(#[trigger] v@[k], issue_name(issues[k]))
}

/// The document of one snapshot: its fields in declaration order, under
/// their own names; absent optional fields are null.
pub open spec fn is_snapshot_json(j: Json, s: SnapshotView) -> bool {
    j matches Json::Object(e) && {
        let e = e@;
        &&& e.len() == 14
        &&& has_member(e, 0, "vm_name"@) && is_str(e[0].1, s.vm_name)
        &&& has_member(e, 1, "vm_id"@) && is_str(e[1].1, s.vm_id)
        &&& has_member(e, 2, "cpu_usage_mhz"@) && is_num(e[2].1, s.cpu_usage_mhz as int)
        &&& has_member(e, 3, "cpu_limit_mhz"@) && is_num(e[3].1, s.cpu_limit_mhz as int)
        &&& has_member(e, 4, "cpu_usage_percent"@) && e[4].1 == Json::Fixed2(
            s.cpu_usage_percent as i128,
        )
        &&& has_member(e, 5, "memory_usage_mb"@) && is_num(e[5].1, s.memory_usage_mb as int)
        &&& has_member(e, 6, "memory_limit_mb"@) && is_num(e[6].1, s.memory_limit_mb as int)
        &&& has_member(e, 7, "memory_usage_percent"@) && e[7].1 == Json::Fixed2(
            s.memory_usage_percent as i128,
        )
        &&& has_member(e, 8, "power_state"@) && is_str(e[8].1, power_state_name(s.power_state))
        &&& has_member(e, 9, "tools_running_status"@) && is_str(
            e[9].1,
            tools_status_name(s.tools_running_status),
        )
        &&& has_member(e, 10, "boot_time"@) && is_opt_str(e[10].1, s.boot_time)
        &&& has_member(e, 11, "uptime_seconds"@) && match s.uptime_seconds {
            Some(u) => is_num(e[11].1, u as int),
            None => e[11].1 is Null,
        }
        &&& has_member(e, 12, "host_name"@) && is_opt_str(e[12].1, s.host_name)
        &&& has_member(e, 13, "issues"@) && is_issue_list(e[13].1, s.issues)
    }
}

fn opt_str_json(o: &Option<String>) -> (r: Json)
    ensures
        is_opt_str(r, crate::model::opt_str_view(*o)),
{
    match o {
        Some(s) => Json::Str(s.clone()),
        None => Json::Null,
    }
}

fn issue_list_json(issues: &Vec<IssueKind>) -> (r: Json)
    ensures
        is_issue_list(r, issues@),
{
    let mut v: Vec<Json> = Vec::new();
    let mut i: usize = 0;
    while i < issues.len()
        invariant
            i <= issues.len(),
            v@.len() == i,
            forall|k: int| 0 <= k < i ==> is_str(#[trigger] v@[k], issue_name(issues@[k])),
        decreases issues.len() - i,
    {
        v.push(Json::Str(issues[i].name()));
        i += 1;
    }
    Json::Array(v)
}

/// The document of one snapshot.
pub fn snapshot_json(s: &VmSnapshot) -> (r: Json)
    ensures
        is_snapshot_json(r, s@),
{
    let uptime = match s.uptime_seconds {
        Some(u) => Json::Number(u as i128),
        None => Json::Null,
    };
    Json::Object(
        vec![
            member("vm_name", Json::Str(s.vm_name.clone())),
            member("vm_id", Json::Str(s.vm_id.clone())),
            member("cpu_usage_mhz", Json::Number(s.cpu_usage_mhz as i128)),
            member("cpu_limit_mhz", Json::Number(s.cpu_limit_mhz as i128)),
            member("cpu_usage_percent", Json::Fixed2(s.cpu_usage_percent as i128)),
            member("memory_usage_mb", Json::Number(s.memory_usage_mb as i128)),
            member("memory_limit_mb", Json::Number(s.memory_limit_mb as i128)),
            member("memory_usage_percent", Json::Fixed2(s.memory_usage_percent as i128)),
            member("power_state", Json::Str(s.power_state.name())),
            member("tools_running_status", Json::Str(s.tools_running_status.name())),
            member("boot_time", opt_str_json(&s.boot_time)),
            member("uptime_seconds", uptime),
            member("host_name", opt_str_json(&s.host_name)),
            member("issues", issue_list_json(&s.issues)),
        ],
    )
}

proof fn lemma_lookup_at(entries: Seq<(String, Json)>, i: int, key: Seq<char>)
    requires
        0 <= i < entries.len(),
        entries[i].0@ == key,
        forall|j: int| 0 <= j < i ==> (#[trigger] entries[j]).0@ != key,
    ensures
        entries_lookup(entries, key) == Some(entries[i].1),
    decreases i,
{
    if i > 0 {
        let rest = entries.drop_first();
        assert forall|j: int| 0 <= j < i - 1 implies (#[trigger] rest[j]).0@ != key by {
            assert(rest[j] == entries[j + 1]);
        }
        lemma_lookup_at(rest, i - 1, key);
    }
}

proof fn lemma_issue_names_distinct()
    ensures
        forall|a: IssueKind, b: IssueKind| a != b ==> issue_name(a) != issue_name(b),
{
    reveal_strlit("CPU_HIGH");
    reveal_strlit("MEMORY_HIGH");
    reveal_strlit("POWERED_OFF");
    reveal_strlit("SUSPENDED");
    reveal_strlit("TOOLS_NOT_RUNNING");
    reveal_strlit("UPTIME_SHORT");
    assert("CPU_HIGH"@.len() == 8);
    assert("MEMORY_HIGH"@.len() == 11);
    assert("POWERED_OFF"@.len() == 11);
    assert("SUSPENDED"@.len() == 9);
    assert("TOOLS_NOT_RUNNING"@.len() == 17);
    assert("UPTIME_SHORT"@.len() == 12);
    assert("MEMORY_HIGH"@[0] != "POWERED_OFF"@[0]);
    assert forall|a: IssueKind, b: IssueKind| a != b implies issue_name(a) != issue_name(b) by {
        if issue_name(a) == issue_name(b) {
            assert(issue_name(a).len() == issue_name(b).len());
            assert(issue_name(a)[0] == issue_name(b)[0]);
        }
    }
}

/// A statistics count as the document states it: `statistics.group.key`.
pub open spec fn stat_count(report: Json, group: Seq<char>, key: Seq<char>) -> Option<int> {
    match json_get(report, "statistics"@) {
        Some(st) => match json_get(st, group) {
            Some(g) => json_int(json_get(g, key)),
            None => None,
        },
        None => None,
    }
}

pub open spec fn as_u64(n: Option<int>) -> Option<u64> {
    match n {
        Some(v) => if 0 <= v <= u64::MAX {
            Some(v as u64)
        } else {
            None
        },
        None => None,
    }
}

/// The power-state histogram that a report states, where all its counts are there.
pub open spec fn read_power_spec(report: Json) -> Option<PowerHistogram> {
    let g = "power_states"@;
    match (
        as_u64(stat_count(report, g, "powered_on"@)),
        as_u64(stat_count(report, g, "powered_off"@)),
        as_u64(stat_count(report, g, "suspended"@)),
    ) {
        (Some(a), Some(b), Some(c)) => Some(
            PowerHistogram { powered_on: a, powered_off: b, suspended: c },
        ),
        _ => None,
    }
}

/// A group of the `statistics` member.
pub open spec fn stat_group(report: Json, group: Seq<char>) -> Option<Json> {
    match json_get(report, "statistics"@) {
        Some(st) => json_get(st, group),
        None => None,
    }
}

/// The count of a tag under `statistics.issues_by_type`: a tag that is not
/// there counts zero.
pub open spec fn tag_count_at(report: Json, key: Seq<char>) -> Option<u64> {
    match stat_group(report, "issues_by_type"@) {
        Some(g) => match json_get(g, key) {
            Some(v) => as_u64(json_int(Some(v))),
            None => Some(0),
        },
        None => None,
    }
}

/// The issue-tag histogram that a report states, where its group is there
/// and every tag it lists has a count.
pub open spec fn read_issue_spec(report: Json) -> Option<IssueHistogram> {
    match (
        tag_count_at(report, issue_name(IssueKind::CpuHigh)),
        tag_count_at(report, issue_name(IssueKind::MemoryHigh)),
        tag_count_at(report, issue_name(IssueKind::PoweredOff)),
        tag_count_at(report, issue_name(IssueKind::Suspended)),
        tag_count_at(report, issue_name(IssueKind::ToolsNotRunning)),
        tag_count_at(report, issue_name(IssueKind::UptimeShort)),
    ) {
        (Some(a), Some(b), Some(c), Some(d), Some(e), Some(f)) => Some(
            IssueHistogram {
                cpu_high: a,
                memory_high: b,
                powered_off: c,
                suspended: d,
                tools_not_running: e,
                uptime_short: f,
            },
        ),
        _ => None,
    }
}

fn tag_count(report: &Json, key: &str) -> (r: Option<u64>)
    ensures
        r == tag_count_at(*report, key@),
{
    let st = match report.get("statistics") {
        Some(st) => st,
        None => return None,
    };
    let g = match st.get("issues_by_type") {
        Some(g) => g,
        None => return None,
    };
    match g.get(key) {
        Some(v) => match v.as_int() {
            Some(n) => if 0 <= n && n <= u64::MAX as i128 {
                Some(n as u64)
            } else {
                None
            },
            None => None,
        },
        None => Some(0),
    }
}

fn stat(report: &Json, group: &str, key: &str) -> (r: Option<u64>)
    ensures
        r == as_u64(stat_count(*report, group@, key@)),
{
    let st = match report.get("statistics") {
        Some(st) => st,
        None => return None,
    };
    let g = match st.get(group) {
        Some(g) => g,
        None => return None,
    };
    match g.get(key) {
        Some(v) => match v.as_int() {
            Some(n) => if 0 <= n && n <= u64::MAX as i128 {
                Some(n as u64)
            } else {
                None
            },
            None => None,
        },
        None => None,
    }
}

/// Reads the power-state histogram back from a report.
pub fn read_power_histogram(report: &Json) -> (r: Option<PowerHistogram>)
    ensures
        r == read_power_spec(*report),
{
    let a = stat(report, "power_states", "powered_on");
    let b = stat(report, "power_states", "powered_off");
    let c = stat(report, "power_states", "suspended");
    match (a, b, c) {
        (Some(a), Some(b), Some(c)) => Some(
            PowerHistogram { powered_on: a, powered_off: b, suspended: c },
        ),
        _ => None,
    }
}

/// Reads the issue-tag histogram back from a report.
pub fn read_issue_histogram(report: &Json) -> (r: Option<IssueHistogram>)
    ensures
        r == read_issue_spec(*report),
{
    let a = tag_count(report, "CPU_HIGH");
    let b = tag_count(report, "MEMORY_HIGH");
    let c = tag_count(report, "POWERED_OFF");
    let d = tag_count(report, "SUSPENDED");
    let e = tag_count(report, "TOOLS_NOT_RUNNING");
    let f = tag_count(report, "UPTIME_SHORT");
    match (a, b, c, d, e, f) {
        (Some(a), Some(b), Some(c), Some(d), Some(e), Some(f)) => Some(
            IssueHistogram {
                cpu_high: a,
                memory_high: b,
                powered_off: c,
                suspended: d,
                tools_not_running: e,
                uptime_short: f,
            },
        ),
        _ => None,
    }
}

fn count_json(n: u64) -> (r: Json)
    ensures
        r == Json::Number(n as i128),
{
    Json::Number(n as i128)
}

proof fn lemma_lookup_push(e: Seq<(String, Json)>, x: (String, Json), key: Seq<char>)
    ensures
        entries_lookup(e.push(x), key) == match entries_lookup(e, key) {
            Some(v) => Some(v),
            None => if x.0@ == key {
                Some(x.1)
            } else {
                None
            },
        },
    decreases e.len(),
{
    if e.len() == 0 {
        assert(e.push(x)[0] == x);
        assert(e.push(x).drop_first() =~= Seq::<(String, Json)>::empty());
        assert(entries_lookup(e.push(x).drop_first(), key) is None);
        assert(entries_lookup(e, key) is None);
    } else {
        assert(e.push(x)[0] == e[0]);
        assert(e.push(x).drop_first() =~= e.drop_first().push(x));
        lemma_lookup_push(e.drop_first(), x, key);
    }
}

/// The tag count for `k` in the issue group under construction: there only
/// where `n` is positive.
pub open spec fn tag_member(k: IssueKind, n: u64) -> Option<Json> {
    if n > 0 {
        Some(Json::Number(n as i128))
    } else {
        None
    }
}

/// Adds the count of tag `k` where it is positive.
fn push_tag(e: &mut Vec<(String, Json)>, k: IssueKind, n: u64)
    ensures
        forall|key: Seq<char>|
            #![trigger entries_lookup(final(e)@, key)]
            entries_lookup(final(e)@, key) == match entries_lookup(old(e)@, key) {
                Some(v) => Some(v),
                None => if key == issue_name(k) {
                    tag_member(k, n)
                } else {
                    None
                },
            },
{
    let ghost before = e@;
    if n > 0 {
        let m = member(k.name().as_str(), count_json(n));
        let ghost x = m;
        e.push(m);
        assert forall|key: Seq<char>| #![trigger entries_lookup(e@, key)]
            entries_lookup(e@, key) == match entries_lookup(before, key) {
                Some(v) => Some(v),
                None => if key == issue_name(k) {
                    tag_member(k, n)
                } else {
                    None
                },
            } by {
            lemma_lookup_push(before, x, key);
        }
    }
}

/// The `statistics` member: power states, then the tags that some machine
/// carries, in name order.
fn statistics_json(power: PowerHistogram, issues: IssueHistogram) -> (r: Json)
    ensures
        as_u64(json_int(json_get2(r, "power_states"@, "powered_on"@))) == Some(power.powered_on),
        as_u64(json_int(json_get2(r, "power_states"@, "powered_off"@))) == Some(power.powered_off),
        as_u64(json_int(json_get2(r, "power_states"@, "suspended"@))) == Some(power.suspended),
        json_get(r, "issues_by_type"@) is Some,
        forall|k: IssueKind|
            json_get2(r, "issues_by_type"@, #[trigger] issue_name(k)) == tag_member(
                k,
                issues.spec_count(k),
            ),
{
    let p = Json::Object(
        vec![
            member("powered_on", count_json(power.powered_on)),
            member("powered_off", count_json(power.powered_off)),
            member("suspended", count_json(power.suspended)),
        ],
    );
    let mut tags: Vec<(String, Json)> = Vec::new();
    proof {
        lemma_issue_names_distinct();
    }
    push_tag(&mut tags, IssueKind::CpuHigh, issues.cpu_high);
    push_tag(&mut tags, IssueKind::MemoryHigh, issues.memory_high);
    push_tag(&mut tags, IssueKind::PoweredOff, issues.powered_off);
    push_tag(&mut tags, IssueKind::Suspended, issues.suspended);
    push_tag(&mut tags, IssueKind::ToolsNotRunning, issues.tools_not_running);
    push_tag(&mut tags, IssueKind::UptimeShort, issues.uptime_short);
    let ghost te = tags@;
    assert forall|k: IssueKind| #[trigger] entries_lookup(te, issue_name(k)) == tag_member(
        k,
        issues.spec_count(k),
    ) by {
        assert(entries_lookup(Seq::<(String, Json)>::empty(), issue_name(k)) is None);
    }
    let i = Json::Object(tags);
    let ghost pe = object_entries(p);
    let r = Json::Object(vec![member("power_states", p), member("issues_by_type", i)]);
    proof {
        reveal_strlit("power_states");
        reveal_strlit("issues_by_type");
        reveal_strlit("powered_on");
        reveal_strlit("powered_off");
        reveal_strlit("suspended");
        let re = object_entries(r);
        assert("power_states"@.len() == 12);
        assert("issues_by_type"@.len() == 14);
        assert("powered_on"@.len() == 10);
        assert("powered_off"@.len() == 11);
        assert("suspended"@.len() == 9);
        assert(re[0].0@ != "issues_by_type"@);
        assert(pe[0].0@ != "powered_off"@);
        assert(pe[0].0@ != "suspended"@);
        assert(pe[1].0@ != "suspended"@);
        lemma_lookup_at(re, 0, "power_states"@);
        lemma_lookup_at(re, 1, "issues_by_type"@);
        lemma_lookup_at(pe, 0, "powered_on"@);
        lemma_lookup_at(pe, 1, "powered_off"@);
        lemma_lookup_at(pe, 2, "suspended"@);
        assert forall|k: IssueKind|
            json_get2(r, "issues_by_type"@, #[trigger] issue_name(k)) == tag_member(
                k,
                issues.spec_count(k),
            ) by {
            assert(entries_lookup(te, issue_name(k)) == tag_member(k, issues.spec_count(k)));
        }
    }
    r
}

/// The `metadata` member: when, where, which mode, how many machines, and the
/// thresholds of the run.
pub open spec fn is_metadata_json(
    j: Json,
    timestamp: Seq<char>,
    host: Seq<char>,
    mode: MonitoringMode,
    total: int,
    with_issues: int,
    config: MonitorConfig,
) -> bool {
    j matches Json::Object(e) && {
        let e = e@;
        &&& e.len() == 6
        &&& has_member(e, 0, "timestamp"@) && is_str(e[0].1, timestamp)
        &&& has_member(e, 1, "vcenter_host"@) && is_str(e[1].1, host)
        &&& has_member(e, 2, "monitoring_mode"@) && is_str(e[2].1, mode.spec_name())
        &&& has_member(e, 3, "total_vms"@) && is_num(e[3].1, total)
        &&& has_member(e, 4, "vms_with_issues"@) && is_num(e[4].1, with_issues)
        &&& has_member(e, 5, "thresholds"@)
        &&& e[5].1 matches Json::Object(t) && {
            let t = t@;
            &&& t.len() == 3
            &&& has_member(t, 0, "cpu_percent"@) && t[0].1 == Json::Fixed2(
                config.cpu_threshold as i128,
            )
            &&& has_member(t, 1, "memory_percent"@) && t[1].1 == Json::Fixed2(
                config.memory_threshold as i128,
            )
            &&& has_member(t, 2, "uptime_minutes"@) && is_num(
                t[2].1,
                config.uptime_threshold_seconds / 60,
            )
        }
    }
}

fn vms_json(v: &Vec<VmSnapshot>) -> (r: Json)
    ensures
        r matches Json::Array(a) && a@.len() == v@.len() && forall|k: int|
            0 <= k < v@.len() ==> is_snapshot_json(#[trigger] a@[k], v@[k]@),
{
    let mut a: Vec<Json> = Vec::new();
    let mut i: usize = 0;
    while i < v.len()
        invariant
            i <= v.len(),
            a@.len() == i,
            forall|k: int| 0 <= k < i ==> is_snapshot_json(#[trigger] a@[k], v@[k]@),
        decreases v.len() - i,
    {
        a.push(snapshot_json(&v[i]));
        i += 1;
    }
    Json::Array(a)
}

/// The structured report of a run: `metadata`, `statistics` and `vms`, the
/// full ordered snapshot list. Read back, its histograms are those computed
/// from the snapshots.
pub fn structured_report(
    results: &MonitoringResults,
    mode: MonitoringMode,
    vcenter_host: &str,
    timestamp: &str,
    config: &MonitorConfig,
) -> (r: Json)
    requires
        config.wf(),
    ensures
        read_power_spec(r) == Some(power_histogram_of(results@.statuses)),
        read_issue_spec(r) == Some(issue_histogram_of(results@.with_issues)),
        stat_group(r, "issues_by_type"@) is Some,
        forall|k: IssueKind|
            stat_group(r, "issues_by_type"@) matches Some(g) && json_get(
                g,
                #[trigger] issue_name(k),
            ) == tag_member(k, issue_histogram_of(results@.with_issues).spec_count(k)),
        r matches Json::Object(e) && {
            let e = e@;
            &&& e.len() == 3
            &&& has_member(e, 0, "metadata"@) && is_metadata_json(
                e[0].1,
                timestamp@,
                vcenter_host@,
                mode,
                results@.statuses.len() as int,
                results@.with_issues.len() as int,
                *config,
            )
            &&& has_member(e, 1, "statistics"@)
            &&& has_member(e, 2, "vms"@)
            &&& e[2].1 matches Json::Array(a) && a@.len()
                == results@.statuses.len() && forall|k: int|
                0 <= k < a@.len() ==> is_snapshot_json(#[trigger] a@[k], results@.statuses[k])
        },
{
    let power = results.power_histogram();
    let issues = results.issue_histogram();
    let thresholds = Json::Object(
        vec![
            member("cpu_percent", Json::Fixed2(config.cpu_threshold as i128)),
            member("memory_percent", Json::Fixed2(config.memory_threshold as i128)),
            member("uptime_minutes", Json::Number((config.uptime_threshold_seconds / 60) as i128)),
        ],
    );
    let metadata = Json::Object(
        vec![
            member("timestamp", Json::Str(String::from_str(timestamp))),
            member("vcenter_host", Json::Str(String::from_str(vcenter_host))),
            member("monitoring_mode", Json::Str(mode.name())),
            member("total_vms", Json::Number(results.vm_statuses.len() as i128)),
            member("vms_with_issues", Json::Number(results.vms_with_issues.len() as i128)),
            member("thresholds", thresholds),
        ],
    );
    let statistics = statistics_json(power, issues);
    let ghost st = statistics;
    let vms = vms_json(&results.vm_statuses);
    let r = Json::Object(
        vec![member("metadata", metadata), member("statistics", statistics), member("vms", vms)],
    );
    proof {
        reveal_strlit("metadata");
        reveal_strlit("statistics");
        assert("metadata"@.len() == 8);
        assert("statistics"@.len() == 10);
        let re = object_entries(r);
        assert(re[0].0@ != "statistics"@);
        lemma_lookup_at(re, 1, "statistics"@);
        assert(json_get(r, "statistics"@) == Some(st));
        lemma_issue_names_distinct();
        assert forall|k: IssueKind| #[trigger] tag_count_at(r, issue_name(k)) == Some(
            issues.spec_count(k),
        ) by {
            assert(json_get2(st, "issues_by_type"@, issue_name(k)) == tag_member(
                k,
                issues.spec_count(k),
            ));
        }
        assert(tag_count_at(r, issue_name(IssueKind::CpuHigh)) == Some(issues.cpu_high));
        assert(tag_count_at(r, issue_name(IssueKind::MemoryHigh)) == Some(issues.memory_high));
        assert(tag_count_at(r, issue_name(IssueKind::PoweredOff)) == Some(issues.powered_off));
        assert(tag_count_at(r, issue_name(IssueKind::Suspended)) == Some(issues.suspended));
        assert(tag_count_at(r, issue_name(IssueKind::ToolsNotRunning)) == Some(
            issues.tools_not_running,
        ));
        assert(tag_count_at(r, issue_name(IssueKind::UptimeShort)) == Some(issues.uptime_short));
        assert(results@.statuses.len() == results.vm_statuses@.len());
        assert(results@.with_issues.len() == results.vms_with_issues@.len());
        assert forall|k: int| 0 <= k < results.vm_statuses@.len() implies results@.statuses[k]
            == (#[trigger] results.vm_statuses@[k])@ by {}
        assert(is_metadata_json(
            object_entries(r)[0].1,
            timestamp@,
            vcenter_host@,
            mode,
            results@.statuses.len() as int,
            results@.with_issues.len() as int,
            *config,
        ));
    }
    r
}

} // verus!
