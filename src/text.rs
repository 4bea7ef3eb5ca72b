//! Rendering of numbers, uptimes and snapshots as text.
use vstd::prelude::*;
use crate::evaluate::MonitorConfig;
use crate::report::{
    Criterion, count_meeting, lemma_count_bounded, power_histogram_of, tools_histogram_of,
};
use crate::results::{MonitoringMode, MonitoringResults, ResultsView};
use crate::model::{
    IssueKind, PowerState, SnapshotView, VmSnapshot, issue_name, power_state_name,
    tools_status_name,
};

verus! {

pub open spec fn digit_char(d: nat) -> char {
    if d == 0 {
        '0'
    } else if d == 1 {
        '1'
    } else if d == 2 {
        '2'
    } else if d == 3 {
        '3'
    } else if d == 4 {
        '4'
    } else if d == 5 {
        '5'
    } else if d == 6 {
        '6'
    } else if d == 7 {
        '7'
    } else if d == 8 {
        '8'
    } else {
        '9'
    }
}

/// Decimal digits of `n`, without leading zeros.
pub open spec fn decimal(n: nat) -> Seq<char>
    decreases n,
{
    if n < 10 {
        seq![digit_char(n)]
    } else {
        decimal(n / 10).push(digit_char(n % 10))
    }
}

/// A count of hundredths as a decimal number with two fractional digits.
pub open spec fn fixed2(n: nat) -> Seq<char> {
    decimal(n / 100) + seq!['.', digit_char((n / 10) % 10), digit_char(n % 10)]
}

fn digit_str(d: u64) -> (r: &'static str)
    requires
        d < 10,
    ensures
        r@ == seq![digit_char(d as nat)],
{
    proof {
        reveal_strlit("0");
        reveal_strlit("1");
        reveal_strlit("2");
        reveal_strlit("3");
        reveal_strlit("4");
        reveal_strlit("5");
        reveal_strlit("6");
        reveal_strlit("7");
        reveal_strlit("8");
        reveal_strlit("9");
    }
    let r = if d == 0 {
        "0"
    } else if d == 1 {
        "1"
    } else if d == 2 {
        "2"
    } else if d == 3 {
        "3"
    } else if d == 4 {
        "4"
    } else if d == 5 {
        "5"
    } else if d == 6 {
        "6"
    } else if d == 7 {
        "7"
    } else if d == 8 {
        "8"
    } else {
        "9"
    };
    assert(r@ =~= seq![digit_char(d as nat)]);
    r
}

/// `n` in decimal.
pub fn decimal_string(n: u64) -> (r: String)
    ensures
        r@ == decimal(n as nat),
    decreases n,
{
    if n < 10 {
        String::from_str(digit_str(n))
    } else {
        let mut s = decimal_string(n / 10);
        s.append(digit_str(n % 10));
        s
    }
}

/// `n` hundredths with two fractional digits (`3050` is `30.50`).
pub fn fixed2_string(n: u64) -> (r: String)
    ensures
        r@ == fixed2(n as nat),
{
    let mut s = decimal_string(n / 100);
    s.append(".");
    s.append(digit_str((n / 10) % 10));
    s.append(digit_str(n % 10));
    proof {
        reveal_strlit(".");
    }
    assert(s@ =~= fixed2(n as nat));
    s
}

/// `n` followed by `unit` where `n` is positive, else nothing.
pub open spec fn component(n: nat, unit: Seq<char>) -> Seq<char> {
    if n > 0 {
        decimal(n) + unit
    } else {
        Seq::empty()
    }
}

/// Two texts separated by a space, where both are non-empty.
pub open spec fn space_join(a: Seq<char>, b: Seq<char>) -> Seq<char> {
    if a.len() == 0 {
        b
    } else if b.len() == 0 {
        a
    } else {
        a + " "@ + b
    }
}

/// A compact duration: the non-zero ones of days, hours and minutes, `< 1m`
/// under a minute, `N/A` where the uptime is unknown or negative.
pub open spec fn uptime_text(uptime: Option<i64>) -> Seq<char> {
    match uptime {
        Some(u) => if u < 0 {
            "N/A"@
        } else {
            let days = (u / 86400) as nat;
            let hours = ((u % 86400) / 3600) as nat;
            let minutes = ((u % 3600) / 60) as nat;
            let t = space_join(
                space_join(component(days, "d"@), component(hours, "h"@)),
                component(minutes, "m"@),
            );
            if t.len() == 0 {
                "< 1m"@
            } else {
                t
            }
        },
        None => "N/A"@,
    }
}

fn component_string(n: u64, unit: &str) -> (r: String)
    ensures
        r@ == component(n as nat, unit@),
{
    if n > 0 {
        decimal_string(n).concat(unit)
    } else {
        String::new()
    }
}

fn space_join_string(a: String, b: String) -> (r: String)
    ensures
        r@ == space_join(a@, b@),
{
    if a.as_str().is_empty() {
        b
    } else if b.as_str().is_empty() {
        a
    } else {
        a.concat(" ").concat(b.as_str())
    }
}

/// Renders an uptime in seconds.
pub fn format_uptime(uptime: Option<i64>) -> (r: String)
    ensures
        r@ == uptime_text(uptime),
{
    match uptime {
        Some(u) => {
            if u < 0 {
                return String::from_str("N/A");
            }
            let days = (u / 86400) as u64;
            let hours = ((u % 86400) / 3600) as u64;
            let minutes = ((u % 3600) / 60) as u64;
            let t = space_join_string(
                space_join_string(component_string(days, "d"), component_string(hours, "h")),
                component_string(minutes, "m"),
            );
            if t.as_str().is_empty() {
                String::from_str("< 1m")
            } else {
                t
            }
        },
        None => String::from_str("N/A"),
    }
}

pub open spec fn or_na(o: Option<Seq<char>>) -> Seq<char> {
    match o {
        Some(s) => s,
        None => "N/A"@,
    }
}

/// Tag names separated by `, `.
pub open spec fn issues_joined(issues: Seq<IssueKind>) -> Seq<char>
    decreases issues.len(),
{
    if issues.len() == 0 {
        Seq::empty()
    } else if issues.len() == 1 {
        issue_name(issues[0])
    } else {
        issues_joined(issues.drop_last()) + ", "@ + issue_name(issues.last())
    }
}

pub open spec fn issues_text(issues: Seq<IssueKind>) -> Seq<char> {
    if issues.len() == 0 {
        "None"@
    } else {
        issues_joined(issues)
    }
}

/// A usage line: percentage, then usage over limit in `unit`.
pub open spec fn usage_line(
    label: Seq<char>,
    percent: u64,
    usage: u64,
    limit: u64,
    unit: Seq<char>,
) -> Seq<char> {
    label + fixed2(percent as nat) + "% ("@ + decimal(usage as nat) + "/"@ + decimal(
        limit as nat,
    ) + unit + ")\n"@
}

/// The uptime of a snapshot as shown: `N/A` unless the machine is running.
pub open spec fn snapshot_uptime_text(s: SnapshotView) -> Seq<char> {
    if s.power_state == PowerState::PoweredOn {
        uptime_text(s.uptime_seconds)
    } else {
        "N/A"@
    }
}

/// The text block of one snapshot.
#[verifier::opaque]
pub open spec fn snapshot_text(s: SnapshotView) -> Seq<char> {
    ("VM: "@ + s.vm_name + " (ID: "@ + s.vm_id + ")\n"@) + ("  Power state: "@
        + power_state_name(s.power_state) + "\n"@) + ("  Guest tools: "@ + tools_status_name(
        s.tools_running_status,
    ) + "\n"@) + ("  Host: "@ + or_na(s.host_name) + "\n"@) + ("  Boot time: "@ + or_na(
        s.boot_time,
    ) + "\n"@) + ("  Uptime: "@ + snapshot_uptime_text(s) + "\n"@) + usage_line(
        "  CPU: "@,
        s.cpu_usage_percent,
        s.cpu_usage_mhz,
        s.cpu_limit_mhz,
        " MHz"@,
    ) + usage_line(
        "  Memory: "@,
        s.memory_usage_percent,
        s.memory_usage_mb,
        s.memory_limit_mb,
        " MB"@,
    ) + ("  Issues detected: "@ + issues_text(s.issues))
}

fn or_na_string(o: &Option<String>) -> (r: String)
    ensures
        r@ == or_na(crate::model::opt_str_view(*o)),
{
    match o {
        Some(s) => s.clone(),
        None => String::from_str("N/A"),
    }
}

fn issues_string(issues: &Vec<IssueKind>) -> (r: String)
    ensures
        r@ == issues_text(issues@),
{
    if issues.len() == 0 {
        return String::from_str("None");
    }
    let mut out = issues[0].name();
    let mut i: usize = 1;
    assert(issues@.subrange(0, 1).drop_last() =~= Seq::<IssueKind>::empty());
    while i < issues.len()
        invariant
            1 <= i <= issues.len(),
            out@ == issues_joined(issues@.subrange(0, i as int)),
        decreases issues.len() - i,
    {
        assert(issues@.subrange(0, i + 1).drop_last() =~= issues@.subrange(0, i as int));
        out.append(", ");
        out.append(issues[i].name().as_str());
        i += 1;
    }
    assert(issues@.subrange(0, i as int) =~= issues@);
    out
}

fn usage_line_string(label: &str, percent: u64, usage: u64, limit: u64, unit: &str) -> (r: String)
    ensures
        r@ == usage_line(label@, percent, usage, limit, unit@),
{
    let mut s = String::from_str(label);
    s.append(fixed2_string(percent).as_str());
    s.append("% (");
    s.append(decimal_string(usage).as_str());
    s.append("/");
    s.append(decimal_string(limit).as_str());
    s.append(unit);
    s.append(")\n");
    s
}

fn line(label: &str, value: &str) -> (r: String)
    ensures
        r@ == label@ + value@ + "\n"@,
{
    let mut s = String::from_str(label);
    s.append(value);
    s.append("\n");
    s
}

impl VmSnapshot {
    /// The uptime as shown in reports: `N/A` unless the machine is running.
    pub fn format_uptime(&self) -> (r: String)
        ensures
            r@ == snapshot_uptime_text(self@),
    {
        if self.power_state == PowerState::PoweredOn {
            format_uptime(self.uptime_seconds)
        } else {
            String::from_str("N/A")
        }
    }

    /// The human-readable block of this snapshot.
    pub fn render_text(&self) -> (r: String)
        ensures
            r@ == snapshot_text(self@),
    {
        let mut s = String::from_str("VM: ");
        s.append(self.vm_name.as_str());
        s.append(" (ID: ");
        s.append(self.vm_id.as_str());
        s.append(")\n");
        let ghost l1 = s@;
        let l2 = line("  Power state: ", self.power_state.name().as_str());
        let l3 = line("  Guest tools: ", self.tools_running_status.name().as_str());
        let l4 = line("  Host: ", or_na_string(&self.host_name).as_str());
        let l5 = line("  Boot time: ", or_na_string(&self.boot_time).as_str());
        let l6 = line("  Uptime: ", self.format_uptime().as_str());
        let l7 = usage_line_string(
            "  CPU: ",
            self.cpu_usage_percent,
            self.cpu_usage_mhz,
            self.cpu_limit_mhz,
            " MHz",
        );
        let l8 = usage_line_string(
            "  Memory: ",
            self.memory_usage_percent,
            self.memory_usage_mb,
            self.memory_limit_mb,
            " MB",
        );
        let mut l9 = String::from_str("  Issues detected: ");
        l9.append(issues_string(&self.issues).as_str());
        s.append(l2.as_str());
        s.append(l3.as_str());
        s.append(l4.as_str());
        s.append(l5.as_str());
        s.append(l6.as_str());
        s.append(l7.as_str());
        s.append(l8.as_str());
        s.append(l9.as_str());
        assert(l1 == "VM: "@ + self.vm_name@ + " (ID: "@ + self.vm_id@ + ")\n"@);
        reveal(snapshot_text);
        assert(s@ =~= snapshot_text(self@));
        s
    }
}

pub open spec fn double_rule() -> Seq<char> {
    "================================================================================"@
}

pub open spec fn single_rule() -> Seq<char> {
    "--------------------------------------------------------------------------------"@
}

fn double_rule_str() -> (r: &'static str)
    ensures
        r@ == double_rule(),
{
    "================================================================================"
}

fn single_rule_str() -> (r: &'static str)
    ensures
        r@ == single_rule(),
{
    "--------------------------------------------------------------------------------"
}

impl MonitoringMode {
    pub open spec fn spec_title(self) -> Seq<char> {
        match self {
            MonitoringMode::All => "ALL"@,
            MonitoringMode::List => "LIST"@,
        }
    }

    pub fn title(&self) -> (r: &'static str)
        ensures
            r@ == self.spec_title(),
    {
        match self {
            MonitoringMode::All => "ALL",
            MonitoringMode::List => "LIST",
        }
    }
}

/// Heading of the report: time, mode, counts and thresholds.
pub open spec fn header_text(
    generated_at: Seq<char>,
    mode: MonitoringMode,
    r: ResultsView,
    config: MonitorConfig,
) -> Seq<char> {
    (double_rule() + "\n"@ + "VCENTER MONITORING REPORT - "@ + generated_at + "\n"@
        + double_rule() + "\n\n"@) + ("Monitoring mode: "@ + mode.spec_title() + "\n"@) + (
    "VMs analysed: "@ + decimal(r.statuses.len()) + "\n"@) + ("VMs with issues: "@ + decimal(
        r.with_issues.len(),
    ) + "\n"@) + ("CPU threshold: "@ + fixed2(config.cpu_threshold as nat) + "%\n"@) + (
    "Memory threshold: "@ + fixed2(config.memory_threshold as nat) + "%\n"@) + "\n"@
}

/// The blocks of the snapshots that carry `k`, in order, each followed by a rule.
pub open spec fn group_members(w: Seq<SnapshotView>, k: IssueKind) -> Seq<char>
    decreases w.len(),
{
    if w.len() == 0 {
        Seq::empty()
    } else {
        group_members(w.drop_last(), k) + if w.last().issues.contains(k) {
            snapshot_text(w.last()) + "\n"@ + single_rule() + "\n"@
        } else {
            Seq::empty()
        }
    }
}

/// The group of tag `k`: nothing where no snapshot carries it.
pub open spec fn group_text(w: Seq<SnapshotView>, k: IssueKind) -> Seq<char> {
    let n = count_meeting(w, Criterion::Issue(k));
    if n == 0 {
        Seq::empty()
    } else {
        "\n"@ + issue_name(k) + " ("@ + decimal(n) + " VM(s)):\n"@ + single_rule() + "\n"@
            + group_members(w, k)
    }
}

/// The alert section: the groups in tag-name order, or a line saying that
/// no machine has issues.
pub open spec fn alert_text(w: Seq<SnapshotView>) -> Seq<char> {
    if w.len() == 0 {
        "No issue detected on the VMs\n"@
    } else {
        "ALERT - VMs WITH ISSUES:\n"@ + double_rule() + "\n"@ + group_text(w, IssueKind::CpuHigh)
            + group_text(w, IssueKind::MemoryHigh) + group_text(w, IssueKind::PoweredOff)
            + group_text(w, IssueKind::Suspended) + group_text(w, IssueKind::ToolsNotRunning)
            + group_text(w, IssueKind::UptimeShort)
    }
}

/// The statistics section: power states, and tooling of the powered-on machines.
pub open spec fn statistics_text(s: Seq<SnapshotView>) -> Seq<char> {
    let p = power_histogram_of(s);
    let t = tools_histogram_of(s);
    ("\nGLOBAL STATISTICS:\n"@ + single_rule() + "\n"@) + ("Power state:\n"@) + (
    "  Powered on (POWERED_ON): "@ + decimal(p.powered_on as nat) + "\n"@) + (
    "  Powered off (POWERED_OFF): "@ + decimal(p.powered_off as nat) + "\n"@) + (
    "  Suspended (SUSPENDED): "@ + decimal(p.suspended as nat) + "\n"@) + (
    "\nGuest tools (powered-on VMs):\n"@) + ("  Running: "@ + decimal(t.running as nat) + "\n"@)
        + ("  Not running: "@ + decimal(t.not_running as nat) + "\n"@) + ("\n"@ + double_rule()
        + "\n"@)
}

pub open spec fn report_text(
    generated_at: Seq<char>,
    mode: MonitoringMode,
    r: ResultsView,
    config: MonitorConfig,
) -> Seq<char> {
    header_text(generated_at, mode, r, config) + alert_text(r.with_issues) + statistics_text(
        r.statuses,
    )
}

fn count_line(label: &str, n: u64) -> (r: String)
    ensures
        r@ == label@ + decimal(n as nat) + "\n"@,
{
    let mut s = String::from_str(label);
    s.append(decimal_string(n).as_str());
    s.append("\n");
    s
}

fn percent_line(label: &str, n: u64) -> (r: String)
    ensures
        r@ == label@ + fixed2(n as nat) + "%\n"@,
{
    let mut s = String::from_str(label);
    s.append(fixed2_string(n).as_str());
    s.append("%\n");
    s
}

impl MonitoringResults {
    fn header_string(&self, generated_at: &str, mode: MonitoringMode, config: &MonitorConfig) -> (r:
        String)
        ensures
            r@ == header_text(generated_at@, mode, self@, *config),
    {
        let mut s = String::from_str(double_rule_str());
        s.append("\n");
        s.append("VCENTER MONITORING REPORT - ");
        s.append(generated_at);
        s.append("\n");
        s.append(double_rule_str());
        s.append("\n\n");
        let ghost a = s@;
        let mut m = String::from_str("Monitoring mode: ");
        m.append(mode.title());
        m.append("\n");
        let l1 = count_line("VMs analysed: ", self.vm_statuses.len() as u64);
        let l2 = count_line("VMs with issues: ", self.vms_with_issues.len() as u64);
        let l3 = percent_line("CPU threshold: ", config.cpu_threshold);
        let l4 = percent_line("Memory threshold: ", config.memory_threshold);
        s.append(m.as_str());
        s.append(l1.as_str());
        s.append(l2.as_str());
        s.append(l3.as_str());
        s.append(l4.as_str());
        s.append("\n");
        assert(a =~= double_rule() + "\n"@ + "VCENTER MONITORING REPORT - "@ + generated_at@
            + "\n"@ + double_rule() + "\n\n"@);
        assert(s@ =~= header_text(generated_at@, mode, self@, *config));
        s
    }

    fn group_string(&self, k: IssueKind, n: u64) -> (r: String)
        requires
            n == count_meeting(self@.with_issues, Criterion::Issue(k)),
        ensures
            r@ == group_text(self@.with_issues, k),
    {
        if n == 0 {
            return String::new();
        }
        let mut s = String::from_str("\n");
        s.append(k.name().as_str());
        s.append(" (");
        s.append(decimal_string(n).as_str());
        s.append(" VM(s)):\n");
        s.append(single_rule_str());
        s.append("\n");
        let ghost head = s@;
        let ghost w = self@.with_issues;
        let mut i: usize = 0;
        while i < self.vms_with_issues.len()
            invariant
                i <= self.vms_with_issues.len(),
                w == self@.with_issues,
                w.len() == self.vms_with_issues@.len(),
                s@ == head + group_members(w.subrange(0, i as int), k),
            decreases self.vms_with_issues.len() - i,
        {
            let v = &self.vms_with_issues[i];
            assert(w[i as int] == v@);
            assert(w.subrange(0, i + 1).drop_last() =~= w.subrange(0, i as int));
            let ghost before = s@;
            if v.has_issue(k) {
                s.append(v.render_text().as_str());
                s.append("\n");
                s.append(single_rule_str());
                s.append("\n");
            }
            assert(s@ =~= head + group_members(w.subrange(0, i + 1), k));
            i += 1;
        }
        assert(w.subrange(0, i as int) =~= w);
        s
    }

    fn alert_string(&self) -> (r: String)
        ensures
            r@ == alert_text(self@.with_issues),
    {
        if self.vms_with_issues.len() == 0 {
            return String::from_str("No issue detected on the VMs\n");
        }
        let h = self.issue_histogram();
        proof {
            assert(self@.with_issues.len() == self.vms_with_issues@.len());
            assert forall|k: IssueKind|
                #[trigger] count_meeting(self@.with_issues, Criterion::Issue(k)) <= u64::MAX by {
                lemma_count_bounded(self@.with_issues, Criterion::Issue(k));
            }
        }
        let mut s = String::from_str("ALERT - VMs WITH ISSUES:\n");
        s.append(double_rule_str());
        s.append("\n");
        s.append(self.group_string(IssueKind::CpuHigh, h.cpu_high).as_str());
        s.append(self.group_string(IssueKind::MemoryHigh, h.memory_high).as_str());
        s.append(self.group_string(IssueKind::PoweredOff, h.powered_off).as_str());
        s.append(self.group_string(IssueKind::Suspended, h.suspended).as_str());
        s.append(self.group_string(IssueKind::ToolsNotRunning, h.tools_not_running).as_str());
        s.append(self.group_string(IssueKind::UptimeShort, h.uptime_short).as_str());
        assert(s@ =~= alert_text(self@.with_issues));
        s
    }

    fn statistics_string(&self) -> (r: String)
        ensures
            r@ == statistics_text(self@.statuses),
    {
        let p = self.power_histogram();
        let t = self.tools_histogram();
        let mut s = String::from_str("\nGLOBAL STATISTICS:\n");
        s.append(single_rule_str());
        s.append("\n");
        let ghost a = s@;
        let l1 = count_line("  Powered on (POWERED_ON): ", p.powered_on);
        let l2 = count_line("  Powered off (POWERED_OFF): ", p.powered_off);
        let l3 = count_line("  Suspended (SUSPENDED): ", p.suspended);
        let l4 = count_line("  Running: ", t.running);
        let l5 = count_line("  Not running: ", t.not_running);
        s.append("Power state:\n");
        s.append(l1.as_str());
        s.append(l2.as_str());
        s.append(l3.as_str());
        s.append("\nGuest tools (powered-on VMs):\n");
        s.append(l4.as_str());
        s.append(l5.as_str());
        s.append("\n");
        s.append(double_rule_str());
        s.append("\n");
        assert(s@ =~= statistics_text(self@.statuses));
        s
    }

    /// The textual report of the run: heading, issue groups in tag-name
    /// order, and statistics.
    pub fn generate_report(
        &self,
        generated_at: &str,
        mode: MonitoringMode,
        config: &MonitorConfig,
    ) -> (r: String)
        ensures
            r@ == report_text(generated_at@, mode, self@, *config),
    {
        let mut s = self.header_string(generated_at, mode, config);
        s.append(self.alert_string().as_str());
        s.append(self.statistics_string().as_str());
        s
    }
}

} // verus!
