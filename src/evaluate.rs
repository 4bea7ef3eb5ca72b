//! Threshold configuration, issue classification and the construction of a
//! snapshot from what the gateway and the metrics provider returned.
use vstd::prelude::*;
use crate::model::{
    IssueKind, PowerState, SnapshotView, ToolsStatus, VmSnapshot, opt_str_view,
};

verus! {

/// Nominal clock of one core, used to estimate a machine's CPU capacity.
pub const NOMINAL_CORE_MHZ: u64 = 2000;

/// Largest threshold: 100% in hundredths of a percent.
pub const FULL_PERCENT: u64 = 10000;

#[derive(Clone, Copy, Debug, PartialEq, Eq, Structural)]
pub enum ConfigError {
    CpuThresholdOutOfRange,
    MemoryThresholdOutOfRange,
    NegativeUptimeThreshold,
    /// The uptime threshold in seconds does not fit an `i64`.
    UptimeThresholdTooLarge,
}

/// Thresholds and toggles of one run. Thresholds are in hundredths of a
/// percent.
#[derive(Clone, Copy, Debug)]
pub struct MonitorConfig {
    pub cpu_threshold: u64,
    pub memory_threshold: u64,
    pub uptime_threshold_seconds: i64,
    pub check_boot_issues: bool,
    pub check_tools: bool,
}

impl MonitorConfig {
    pub open spec fn wf(self) -> bool {
        &&& 0 < self.cpu_threshold <= FULL_PERCENT
        &&& 0 < self.memory_threshold <= FULL_PERCENT
        &&& self.uptime_threshold_seconds >= 0
    }

    /// Validates the thresholds: each percentage in (0, 100%], the uptime
    /// threshold not negative. The first rule broken is reported.
    pub fn new(
        cpu_threshold: u64,
        memory_threshold: u64,
        uptime_threshold_seconds: i64,
        check_boot_issues: bool,
        check_tools: bool,
    ) -> (r: Result<MonitorConfig, ConfigError>)
        ensures
            !(0 < cpu_threshold <= FULL_PERCENT) ==> r == Err::<MonitorConfig, ConfigError>(
                ConfigError::CpuThresholdOutOfRange,
            ),
            (0 < cpu_threshold <= FULL_PERCENT) && !(0 < memory_threshold <= FULL_PERCENT) ==> r
                == Err::<MonitorConfig, ConfigError>(ConfigError::MemoryThresholdOutOfRange),
            (0 < cpu_threshold <= FULL_PERCENT) && (0 < memory_threshold <= FULL_PERCENT)
                && uptime_threshold_seconds < 0 ==> r == Err::<MonitorConfig, ConfigError>(
                ConfigError::NegativeUptimeThreshold,
            ),
            r is Ok <==> (0 < cpu_threshold <= FULL_PERCENT) && (0 < memory_threshold
                <= FULL_PERCENT) && uptime_threshold_seconds >= 0,
            r matches Ok(c) ==> c.wf() && c.cpu_threshold == cpu_threshold && c.memory_threshold
                == memory_threshold && c.uptime_threshold_seconds == uptime_threshold_seconds
                && c.check_boot_issues == check_boot_issues && c.check_tools == check_tools,
    {
        if !(0 < cpu_threshold && cpu_threshold <= FULL_PERCENT) {
            return Err(ConfigError::CpuThresholdOutOfRange);
        }
        if !(0 < memory_threshold && memory_threshold <= FULL_PERCENT) {
            return Err(ConfigError::MemoryThresholdOutOfRange);
        }
        if uptime_threshold_seconds < 0 {
            return Err(ConfigError::NegativeUptimeThreshold);
        }
        Ok(
            MonitorConfig {
                cpu_threshold,
                memory_threshold,
                uptime_threshold_seconds,
                check_boot_issues,
                check_tools,
            },
        )
    }

    /// The issue tags of a machine in detection order: power, short uptime,
    /// tooling, then CPU and memory load.
    pub open spec fn issues_for(
        self,
        power: PowerState,
        tools: ToolsStatus,
        cpu_percent: u64,
        memory_percent: u64,
        uptime: Option<i64>,
    ) -> Seq<IssueKind> {
        let on = power == PowerState::PoweredOn;
        (if power == PowerState::PoweredOff {
            seq![IssueKind::PoweredOff]
        } else if power == PowerState::Suspended {
            seq![IssueKind::Suspended]
        } else {
            seq![]
        }) + (if self.check_boot_issues && on && uptime is Some && uptime.unwrap()
            < self.uptime_threshold_seconds {
            seq![IssueKind::UptimeShort]
        } else {
            seq![]
        }) + (if self.check_tools && on && tools != ToolsStatus::Running {
            seq![IssueKind::ToolsNotRunning]
        } else {
            seq![]
        }) + (if on && cpu_percent > self.cpu_threshold {
            seq![IssueKind::CpuHigh]
        } else {
            seq![]
        }) + (if on && memory_percent > self.memory_threshold {
            seq![IssueKind::MemoryHigh]
        } else {
            seq![]
        })
    }

    /// Whether a snapshot's issue list is the one these settings give for its
    /// other fields.
    pub open spec fn classifies(self, s: SnapshotView) -> bool {
        s.issues == self.issues_for(
            s.power_state,
            s.tools_running_status,
            s.cpu_usage_percent,
            s.memory_usage_percent,
            s.uptime_seconds,
        )
    }

    /// Classifies one machine. All applicable tags are kept.
    pub fn detect_issues(
        &self,
        power: PowerState,
        tools: ToolsStatus,
        cpu_percent: u64,
        memory_percent: u64,
        uptime: Option<i64>,
    ) -> (r: Vec<IssueKind>)
        ensures
            r@ == self.issues_for(power, tools, cpu_percent, memory_percent, uptime),
    {
        let mut issues: Vec<IssueKind> = Vec::new();
        let on = power == PowerState::PoweredOn;
        let ghost s1: Seq<IssueKind>;
        if power == PowerState::PoweredOff {
            issues.push(IssueKind::PoweredOff);
        } else if power == PowerState::Suspended {
            issues.push(IssueKind::Suspended);
        }
        proof {
            s1 = issues@;
        }
        if self.check_boot_issues && on {
            if let Some(u) = uptime {
                if u < self.uptime_threshold_seconds {
                    issues.push(IssueKind::UptimeShort);
                }
            }
        }
        let ghost s2 = issues@;
        if self.check_tools && on && tools != ToolsStatus::Running {
            issues.push(IssueKind::ToolsNotRunning);
        }
        let ghost s3 = issues@;
        if on && cpu_percent > self.cpu_threshold {
            issues.push(IssueKind::CpuHigh);
        }
        let ghost s4 = issues@;
        if on && memory_percent > self.memory_threshold {
            issues.push(IssueKind::MemoryHigh);
        }
        assert(issues@ =~= self.issues_for(power, tools, cpu_percent, memory_percent, uptime));
        issues
    }
}

/// Usage as a share of a limit, in hundredths of a percent, rounded down;
/// zero when the limit is zero.
pub open spec fn percent_of(usage: int, limit: int) -> int {
    if limit == 0 {
        0
    } else {
        usage * 10000 / limit
    }
}

/// The derived percentage of a usage against its limit.
pub fn derived_percent(usage: u32, limit: u64) -> (r: u64)
    ensures
        r as int == percent_of(usage as int, limit as int),
        limit == 0 ==> r == 0,
{
    if limit == 0 {
        0
    } else {
        let scaled: u64 = usage as u64 * 10000;
        scaled / limit
    }
}

/// Configured size of a machine, from its CPU and memory sub-resources.
#[derive(Clone, Copy, Debug, PartialEq, Eq, Structural)]
pub struct HardwareInfo {
    pub cpu_count: u16,
    pub cores_per_socket: u16,
    pub memory_limit_mb: u64,
}

impl HardwareInfo {
    pub open spec fn spec_cpu_limit_mhz(self) -> int {
        self.cpu_count * self.cores_per_socket * NOMINAL_CORE_MHZ
    }

    /// Estimated CPU capacity: sockets times cores per socket times the
    /// nominal core clock.
    pub fn cpu_limit_mhz(&self) -> (r: u64)
        ensures
            r as int == self.spec_cpu_limit_mhz(),
    {
        let a: u64 = self.cpu_count as u64;
        let b: u64 = self.cores_per_socket as u64;
        assert(a * b <= 65535 * 65535) by (nonlinear_arith)
            requires
                a <= 65535,
                b <= 65535,
        ;
        let cores: u64 = a * b;
        cores * NOMINAL_CORE_MHZ
    }
}

/// Current utilization of a machine.
#[derive(Clone, Copy, Debug, PartialEq, Eq, Structural)]
pub struct Utilization {
    pub cpu_usage_mhz: u32,
    pub cpu_usage_percent: u64,
    pub memory_usage_mb: u32,
    pub memory_usage_percent: u64,
}

impl Utilization {
    pub open spec fn is_zero(self) -> bool {
        self.cpu_usage_mhz == 0 && self.cpu_usage_percent == 0 && self.memory_usage_mb == 0
            && self.memory_usage_percent == 0
    }

    pub fn zero() -> (r: Utilization)
        ensures
            r.is_zero(),
    {
        Utilization {
            cpu_usage_mhz: 0,
            cpu_usage_percent: 0,
            memory_usage_mb: 0,
            memory_usage_percent: 0,
        }
    }
}

/// Runtime state of a machine as read from its detail resource.
pub struct VmDetail {
    pub power_state: PowerState,
    pub tools_running_status: ToolsStatus,
    pub boot_time: Option<String>,
    pub host: Option<String>,
}

/// Seconds since boot: known only for a running machine whose boot instant
/// is known, and only where the difference fits an `i64`.
pub open spec fn uptime_of(power: PowerState, boot_epoch: Option<i64>, now: i64) -> Option<i64> {
    match boot_epoch {
        Some(b) => if power == PowerState::PoweredOn && i64::MIN <= now - b <= i64::MAX {
            Some((now - b) as i64)
        } else {
            None
        },
        None => None,
    }
}

pub fn compute_uptime(power: PowerState, boot_epoch: Option<i64>, now: i64) -> (r: Option<i64>)
    ensures
        r == uptime_of(power, boot_epoch, now),
{
    match boot_epoch {
        Some(b) => {
            if power == PowerState::PoweredOn {
                now.checked_sub(b)
            } else {
                None
            }
        },
        None => None,
    }
}

/// The snapshot that one evaluation yields. Utilization counts only for a
/// running machine.
pub open spec fn expected_snapshot(
    config: MonitorConfig,
    vm_id: Seq<char>,
    vm_name: Seq<char>,
    detail: VmDetail,
    hardware: HardwareInfo,
    host_name: Option<Seq<char>>,
    usage: Utilization,
    boot_epoch: Option<i64>,
    now: i64,
) -> SnapshotView {
    let on = detail.power_state == PowerState::PoweredOn;
    let cpu_mhz: u64 = if on { usage.cpu_usage_mhz as u64 } else { 0 };
    let mem_mb: u64 = if on { usage.memory_usage_mb as u64 } else { 0 };
    let cpu_limit = hardware.spec_cpu_limit_mhz() as u64;
    let cpu_pct = percent_of(cpu_mhz as int, cpu_limit as int) as u64;
    let mem_pct = percent_of(mem_mb as int, hardware.memory_limit_mb as int) as u64;
    let uptime = uptime_of(detail.power_state, boot_epoch, now);
    SnapshotView {
        vm_name,
        vm_id,
        cpu_usage_mhz: cpu_mhz,
        cpu_limit_mhz: cpu_limit,
        cpu_usage_percent: cpu_pct,
        memory_usage_mb: mem_mb,
        memory_limit_mb: hardware.memory_limit_mb,
        memory_usage_percent: mem_pct,
        power_state: detail.power_state,
        tools_running_status: detail.tools_running_status,
        boot_time: opt_str_view(detail.boot_time),
        uptime_seconds: uptime,
        host_name,
        issues: config.issues_for(
            detail.power_state,
            detail.tools_running_status,
            cpu_pct,
            mem_pct,
            uptime,
        ),
    }
}

/// Builds the snapshot of one machine from its detail, its hardware, its
/// host's name, its utilization and its boot instant in seconds since the
/// epoch.
pub fn evaluate_vm(
    config: &MonitorConfig,
    vm_id: &str,
    vm_name: &str,
    detail: &VmDetail,
    hardware: &HardwareInfo,
    host_name: Option<String>,
    usage: &Utilization,
    boot_epoch: Option<i64>,
    now: i64,
) -> (r: VmSnapshot)
    ensures
        r@ == expected_snapshot(
            *config,
            vm_id@,
            vm_name@,
            *detail,
            *hardware,
            opt_str_view(host_name),
            *usage,
            boot_epoch,
            now,
        ),
        config.classifies(r@),
        r.cpu_limit_mhz == 0 ==> r.cpu_usage_percent == 0,
        r.memory_limit_mb == 0 ==> r.memory_usage_percent == 0,
{
    let on = detail.power_state == PowerState::PoweredOn;
    let (cpu_mhz, mem_mb): (u32, u32) = if on {
        (usage.cpu_usage_mhz, usage.memory_usage_mb)
    } else {
        (0, 0)
    };
    let cpu_limit = hardware.cpu_limit_mhz();
    let cpu_pct = derived_percent(cpu_mhz, cpu_limit);
    let mem_pct = derived_percent(mem_mb, hardware.memory_limit_mb);
    let uptime = compute_uptime(detail.power_state, boot_epoch, now);
    let issues = config.detect_issues(
        detail.power_state,
        detail.tools_running_status,
        cpu_pct,
        mem_pct,
        uptime,
    );
    VmSnapshot {
        vm_name: String::from_str(vm_name),
        vm_id: String::from_str(vm_id),
        cpu_usage_mhz: cpu_mhz as u64,
        cpu_limit_mhz: cpu_limit,
        cpu_usage_percent: cpu_pct,
        memory_usage_mb: mem_mb as u64,
        memory_limit_mb: hardware.memory_limit_mb,
        memory_usage_percent: mem_pct,
        power_state: detail.power_state,
        tools_running_status: detail.tools_running_status,
        boot_time: crate::model::copy_opt_string(&detail.boot_time),
        uptime_seconds: uptime,
        host_name,
        issues,
    }
}

/// The instant that an RFC 3339 timestamp denotes, in whole seconds since
/// the Unix epoch; `None` where the text is no such timestamp.
pub uninterp spec fn rfc3339_epoch_seconds(s: Seq<char>) -> Option<i64>;

/// Relies on chrono's `DateTime::parse_from_rfc3339` to read the timestamp and
/// on `DateTime::timestamp` for its seconds since the epoch.
#[verifier::external_body]
fn parse_rfc3339_epoch(s: &str) -> (r: Option<i64>)
    ensures
        r == rfc3339_epoch_seconds(s@),
{
    match chrono::DateTime::parse_from_rfc3339(s) {
        Ok(t) => Some(t.timestamp()),
        Err(_) => None,
    }
}

/// The boot instant of a machine, read from its detail.
pub open spec fn boot_epoch_of(detail: VmDetail) -> Option<i64> {
    match detail.boot_time {
        Some(t) => rfc3339_epoch_seconds(t@),
        None => None,
    }
}

/// Evaluates one machine at the instant `now` (seconds since the epoch),
/// reading its boot time as an RFC 3339 timestamp.
pub fn evaluate_vm_at(
    config: &MonitorConfig,
    vm_id: &str,
    vm_name: &str,
    detail: &VmDetail,
    hardware: &HardwareInfo,
    host_name: Option<String>,
    usage: &Utilization,
    now: i64,
) -> (r: VmSnapshot)
    ensures
        r@ == expected_snapshot(
            *config,
            vm_id@,
            vm_name@,
            *detail,
            *hardware,
            opt_str_view(host_name),
            *usage,
            boot_epoch_of(*detail),
            now,
        ),
        config.classifies(r@),
{
    let boot_epoch = match &detail.boot_time {
        Some(t) => parse_rfc3339_epoch(t.as_str()),
        None => None,
    };
    evaluate_vm(config, vm_id, vm_name, detail, hardware, host_name, usage, boot_epoch, now)
}

/// A snapshot carries no issue exactly when the machine is running with its
/// tooling running, both loads at or below their thresholds, and its uptime,
/// where the check is on and the uptime known, at or above the threshold.
/// Holds where the tooling check is on and the power state is known: a machine
/// in an unknown power state gets no tag.
pub proof fn lemma_no_issues_iff_healthy(config: MonitorConfig, s: SnapshotView)
    requires
        config.classifies(s),
        config.check_tools,
        s.power_state != PowerState::Unknown,
    ensures
        s.issues.len() == 0 <==> {
            &&& s.power_state == PowerState::PoweredOn
            &&& s.tools_running_status == ToolsStatus::Running
            &&& s.cpu_usage_percent <= config.cpu_threshold
            &&& s.memory_usage_percent <= config.memory_threshold
            &&& (!config.check_boot_issues || s.uptime_seconds is None
                || s.uptime_seconds.unwrap() >= config.uptime_threshold_seconds)
        },
{
    let on = s.power_state == PowerState::PoweredOn;
    let a: Seq<IssueKind> = if s.power_state == PowerState::PoweredOff {
        seq![IssueKind::PoweredOff]
    } else if s.power_state == PowerState::Suspended {
        seq![IssueKind::Suspended]
    } else {
        seq![]
    };
    let b: Seq<IssueKind> = if config.check_boot_issues && on && s.uptime_seconds is Some
        && s.uptime_seconds.unwrap() < config.uptime_threshold_seconds {
        seq![IssueKind::UptimeShort]
    } else {
        seq![]
    };
    let c: Seq<IssueKind> = if config.check_tools && on && s.tools_running_status
        != ToolsStatus::Running {
        seq![IssueKind::ToolsNotRunning]
    } else {
        seq![]
    };
    let d: Seq<IssueKind> = if on && s.cpu_usage_percent > config.cpu_threshold {
        seq![IssueKind::CpuHigh]
    } else {
        seq![]
    };
    let e: Seq<IssueKind> = if on && s.memory_usage_percent > config.memory_threshold {
        seq![IssueKind::MemoryHigh]
    } else {
        seq![]
    };
    assert(s.issues == a + b + c + d + e);
    assert(s.issues.len() == a.len() + b.len() + c.len() + d.len() + e.len());
}

/// A powered-off or suspended machine carries no load, tooling or uptime tag.
pub proof fn lemma_stopped_machine_tags(config: MonitorConfig, s: SnapshotView)
    requires
        config.classifies(s),
        s.power_state == PowerState::PoweredOff || s.power_state == PowerState::Suspended,
    ensures
        !s.issues.contains(IssueKind::CpuHigh),
        !s.issues.contains(IssueKind::MemoryHigh),
        !s.issues.contains(IssueKind::ToolsNotRunning),
        !s.issues.contains(IssueKind::UptimeShort),
        s.power_state == PowerState::PoweredOff ==> s.issues == seq![IssueKind::PoweredOff],
        s.power_state == PowerState::Suspended ==> s.issues == seq![IssueKind::Suspended],
{
    if s.power_state == PowerState::PoweredOff {
        assert(s.issues =~= seq![IssueKind::PoweredOff]);
    } else {
        assert(s.issues =~= seq![IssueKind::Suspended]);
    }
}

/// Every snapshot that an evaluation yields has a zero CPU percentage where
/// its CPU limit is zero, and a zero memory percentage where its memory limit
/// is zero, whatever the usage.
pub proof fn lemma_zero_limit_snapshot(
    config: MonitorConfig,
    vm_id: Seq<char>,
    vm_name: Seq<char>,
    detail: VmDetail,
    hardware: HardwareInfo,
    host_name: Option<Seq<char>>,
    usage: Utilization,
    boot_epoch: Option<i64>,
    now: i64,
)
    ensures
        ({
            let s = expected_snapshot(
                config,
                vm_id,
                vm_name,
                detail,
                hardware,
                host_name,
                usage,
                boot_epoch,
                now,
            );
            &&& s.cpu_limit_mhz == 0 ==> s.cpu_usage_percent == 0
            &&& s.memory_limit_mb == 0 ==> s.memory_usage_percent == 0
        }),
{
    assert(hardware.cpu_count * hardware.cores_per_socket <= 65535 * 65535) by (nonlinear_arith)
        requires
            hardware.cpu_count <= 65535,
            hardware.cores_per_socket <= 65535,
    ;
    assert(0 <= hardware.cpu_count * hardware.cores_per_socket) by (nonlinear_arith);
}

/// A derived percentage is zero whenever its limit is zero, whatever the usage.
pub proof fn lemma_zero_limit_zero_percent(usage: int)
    ensures
        percent_of(usage, 0) == 0,
{
}

} // verus!
