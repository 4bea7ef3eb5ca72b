//! The data that one evaluation produces: power and tooling states, issue
//! tags and the per-machine snapshot.
use vstd::prelude::*;

verus! {

/// Power state of a machine as reported by the management API.
#[derive(Clone, Copy, Debug, PartialEq, Eq, Structural, Hash)]
pub enum PowerState {
    PoweredOn,
    PoweredOff,
    Suspended,
    Unknown,
}

/// State of the guest agent tooling.
#[derive(Clone, Copy, Debug, PartialEq, Eq, Structural, Hash)]
pub enum ToolsStatus {
    Running,
    NotRunning,
    Unknown,
}

/// A detected health condition. The declaration order is the
/// lexicographic order of the tag names.
#[derive(Clone, Copy, Debug, PartialEq, Eq, Structural, Hash)]
pub enum IssueKind {
    CpuHigh,
    MemoryHigh,
    PoweredOff,
    Suspended,
    ToolsNotRunning,
    UptimeShort,
}

pub open spec fn power_state_name(p: PowerState) -> Seq<char> {
    match p {
        PowerState::PoweredOn => "POWERED_ON"@,
        PowerState::PoweredOff => "POWERED_OFF"@,
        PowerState::Suspended => "SUSPENDED"@,
        PowerState::Unknown => "UNKNOWN"@,
    }
}

pub open spec fn tools_status_name(t: ToolsStatus) -> Seq<char> {
    match t {
        ToolsStatus::Running => "RUNNING"@,
        ToolsStatus::NotRunning => "NOT_RUNNING"@,
        ToolsStatus::Unknown => "UNKNOWN"@,
    }
}

pub open spec fn issue_name(i: IssueKind) -> Seq<char> {
    match i {
        IssueKind::CpuHigh => "CPU_HIGH"@,
        IssueKind::MemoryHigh => "MEMORY_HIGH"@,
        IssueKind::PoweredOff => "POWERED_OFF"@,
        IssueKind::Suspended => "SUSPENDED"@,
        IssueKind::ToolsNotRunning => "TOOLS_NOT_RUNNING"@,
        IssueKind::UptimeShort => "UPTIME_SHORT"@,
    }
}

/// The power state that an API state string denotes; any other text is `Unknown`.
pub open spec fn power_state_of(s: Seq<char>) -> PowerState {
    if s == "POWERED_ON"@ {
        PowerState::PoweredOn
    } else if s == "POWERED_OFF"@ {
        PowerState::PoweredOff
    } else if s == "SUSPENDED"@ {
        PowerState::Suspended
    } else {
        PowerState::Unknown
    }
}

/// The tooling state that an API status string denotes; any other text is `Unknown`.
pub open spec fn tools_status_of(s: Seq<char>) -> ToolsStatus {
    if s == "RUNNING"@ {
        ToolsStatus::Running
    } else if s == "NOT_RUNNING"@ {
        ToolsStatus::NotRunning
    } else {
        ToolsStatus::Unknown
    }
}

impl PowerState {
    pub fn from_api(s: &str) -> (r: PowerState)
        ensures
            r == power_state_of(s@),
    {
        let s = String::from_str(s);
        if s == String::from_str("POWERED_ON") {
            PowerState::PoweredOn
        } else if s == String::from_str("POWERED_OFF") {
            PowerState::PoweredOff
        } else if s == String::from_str("SUSPENDED") {
            PowerState::Suspended
        } else {
            PowerState::Unknown
        }
    }

    pub fn name(&self) -> (r: String)
        ensures
            r@ == power_state_name(*self),
    {
        match self {
            PowerState::PoweredOn => String::from_str("POWERED_ON"),
            PowerState::PoweredOff => String::from_str("POWERED_OFF"),
            PowerState::Suspended => String::from_str("SUSPENDED"),
            PowerState::Unknown => String::from_str("UNKNOWN"),
        }
    }
}

impl ToolsStatus {
    pub fn from_api(s: &str) -> (r: ToolsStatus)
        ensures
            r == tools_status_of(s@),
    {
        let s = String::from_str(s);
        if s == String::from_str("RUNNING") {
            ToolsStatus::Running
        } else if s == String::from_str("NOT_RUNNING") {
            ToolsStatus::NotRunning
        } else {
            ToolsStatus::Unknown
        }
    }

    pub fn name(&self) -> (r: String)
        ensures
            r@ == tools_status_name(*self),
    {
        match self {
            ToolsStatus::Running => String::from_str("RUNNING"),
            ToolsStatus::NotRunning => String::from_str("NOT_RUNNING"),
            ToolsStatus::Unknown => String::from_str("UNKNOWN"),
        }
    }
}

impl IssueKind {
    pub fn name(&self) -> (r: String)
        ensures
            r@ == issue_name(*self),
    {
        match self {
            IssueKind::CpuHigh => String::from_str("CPU_HIGH"),
            IssueKind::MemoryHigh => String::from_str("MEMORY_HIGH"),
            IssueKind::PoweredOff => String::from_str("POWERED_OFF"),
            IssueKind::Suspended => String::from_str("SUSPENDED"),
            IssueKind::ToolsNotRunning => String::from_str("TOOLS_NOT_RUNNING"),
            IssueKind::UptimeShort => String::from_str("UPTIME_SHORT"),
        }
    }
}

pub open spec fn opt_str_view(o: Option<String>) -> Option<Seq<char>> {
    match o {
        Some(s) => Some(s@),
        None => None,
    }
}

pub fn copy_opt_string(o: &Option<String>) -> (r: Option<String>)
    ensures
        opt_str_view(r) == opt_str_view(*o),
{
    match o {
        Some(s) => Some(s.clone()),
        None => None,
    }
}

pub fn copy_issues(v: &Vec<IssueKind>) -> (r: Vec<IssueKind>)
    ensures
        r@ == v@,
{
    let mut r: Vec<IssueKind> = Vec::new();
    let mut i: usize = 0;
    while i < v.len()
        invariant
            i <= v.len(),
            r@ == v@.subrange(0, i as int),
        decreases v.len() - i,
    {
        r.push(v[i]);
        i += 1;
    }
    assert(r@ =~= v@);
    r
}

/// Result of evaluating one machine at one point in time.
///
/// Percentages are in hundredths of a percent (`3050` is 30.50%).
pub struct VmSnapshot {
    pub vm_name: String,
    pub vm_id: String,
    pub cpu_usage_mhz: u64,
    pub cpu_limit_mhz: u64,
    pub cpu_usage_percent: u64,
    pub memory_usage_mb: u64,
    pub memory_limit_mb: u64,
    pub memory_usage_percent: u64,
    pub power_state: PowerState,
    pub tools_running_status: ToolsStatus,
    pub boot_time: Option<String>,
    pub uptime_seconds: Option<i64>,
    pub host_name: Option<String>,
    pub issues: Vec<IssueKind>,
}

/// What a snapshot says, with strings and the issue list as sequences.
pub struct SnapshotView {
    pub vm_name: Seq<char>,
    pub vm_id: Seq<char>,
    pub cpu_usage_mhz: u64,
    pub cpu_limit_mhz: u64,
    pub cpu_usage_percent: u64,
    pub memory_usage_mb: u64,
    pub memory_limit_mb: u64,
    pub memory_usage_percent: u64,
    pub power_state: PowerState,
    pub tools_running_status: ToolsStatus,
    pub boot_time: Option<Seq<char>>,
    pub uptime_seconds: Option<i64>,
    pub host_name: Option<Seq<char>>,
    pub issues: Seq<IssueKind>,
}

impl View for VmSnapshot {
    type V = SnapshotView;

    open spec fn view(&self) -> SnapshotView {
        SnapshotView {
            vm_name: self.vm_name@,
            vm_id: self.vm_id@,
            cpu_usage_mhz: self.cpu_usage_mhz,
            cpu_limit_mhz: self.cpu_limit_mhz,
            cpu_usage_percent: self.cpu_usage_percent,
            memory_usage_mb: self.memory_usage_mb,
            memory_limit_mb: self.memory_limit_mb,
            memory_usage_percent: self.memory_usage_percent,
            power_state: self.power_state,
            tools_running_status: self.tools_running_status,
            boot_time: opt_str_view(self.boot_time),
            uptime_seconds: self.uptime_seconds,
            host_name: opt_str_view(self.host_name),
            issues: self.issues@,
        }
    }
}

impl SnapshotView {
    pub open spec fn has_issues(self) -> bool {
        self.issues.len() > 0
    }
}

impl VmSnapshot {
    pub fn has_issues(&self) -> (r: bool)
        ensures
            r == self@.has_issues(),
    {
        self.issues.len() > 0
    }

    /// Whether the snapshot carries `kind`.
    pub fn has_issue(&self, kind: IssueKind) -> (r: bool)
        ensures
            r == self@.issues.contains(kind),
    {
        let mut i: usize = 0;
        while i < self.issues.len()
            invariant
                i <= self.issues.len(),
                forall|k: int| 0 <= k < i ==> self.issues@[k] != kind,
            decreases self.issues.len() - i,
        {
            if self.issues[i] == kind {
                assert(self@.issues[i as int] == kind);
                return true;
            }
            i += 1;
        }
        false
    }

    /// A field-by-field copy.
    pub fn copy(&self) -> (r: VmSnapshot)
        ensures
            r@ == self@,
    {
        VmSnapshot {
            vm_name: self.vm_name.clone(),
            vm_id: self.vm_id.clone(),
            cpu_usage_mhz: self.cpu_usage_mhz,
            cpu_limit_mhz: self.cpu_limit_mhz,
            cpu_usage_percent: self.cpu_usage_percent,
            memory_usage_mb: self.memory_usage_mb,
            memory_limit_mb: self.memory_limit_mb,
            memory_usage_percent: self.memory_usage_percent,
            power_state: self.power_state,
            tools_running_status: self.tools_running_status,
            boot_time: copy_opt_string(&self.boot_time),
            uptime_seconds: self.uptime_seconds,
            host_name: copy_opt_string(&self.host_name),
            issues: copy_issues(&self.issues),
        }
    }

    /// Whether the machine is flagged critical: powered off, suspended, or
    /// running without guest tooling.
    pub fn is_critical(&self) -> (r: bool)
        ensures
            r == (self.power_state == PowerState::PoweredOff
                || self.power_state == PowerState::Suspended
                || self@.issues.contains(IssueKind::ToolsNotRunning)),
    {
        self.power_state == PowerState::PoweredOff || self.power_state == PowerState::Suspended
            || self.has_issue(IssueKind::ToolsNotRunning)
    }
}

} // verus!
