use vcenter_vm_monitor::evaluate::{
    derived_percent, evaluate_vm, evaluate_vm_at, ConfigError, HardwareInfo, MonitorConfig,
    Utilization, VmDetail,
};
use vcenter_vm_monitor::metrics::PerformanceManager;
use vcenter_vm_monitor::model::{IssueKind, PowerState, ToolsStatus};

fn config(cpu: u64, mem: u64, uptime: i64) -> MonitorConfig {
    MonitorConfig::new(cpu, mem, uptime, true, true).unwrap()
}

fn detail(power: PowerState, tools: ToolsStatus) -> VmDetail {
    VmDetail { power_state: power, tools_running_status: tools, boot_time: None, host: None }
}

fn usage(cpu: u32, mem: u32) -> Utilization {
    Utilization { cpu_usage_mhz: cpu, cpu_usage_percent: 0, memory_usage_mb: mem, memory_usage_percent: 0 }
}

fn hw(count: u16, cores: u16, mem: u64) -> HardwareInfo {
    HardwareInfo { cpu_count: count, cores_per_socket: cores, memory_limit_mb: mem }
}

#[test]
fn config_rejects_each_bad_threshold() {
    assert_eq!(MonitorConfig::new(0, 9000, 300, true, true).err(), Some(ConfigError::CpuThresholdOutOfRange));
    assert_eq!(MonitorConfig::new(10001, 9000, 300, true, true).err(), Some(ConfigError::CpuThresholdOutOfRange));
    assert_eq!(MonitorConfig::new(8000, 0, 300, true, true).err(), Some(ConfigError::MemoryThresholdOutOfRange));
    assert_eq!(MonitorConfig::new(8000, 9000, -1, true, true).err(), Some(ConfigError::NegativeUptimeThreshold));
    assert!(MonitorConfig::new(10000, 10000, 0, false, false).is_ok());
}

#[test]
fn derived_percent_exact_and_zero_limit() {
    assert_eq!(derived_percent(1200, 2000), 6000);
    assert_eq!(derived_percent(1, 3), 3333);
    assert_eq!(derived_percent(500, 0), 0);
    assert_eq!(derived_percent(u32::MAX, 0), 0);
    assert_eq!(derived_percent(0, 0), 0);
}

#[test]
fn cpu_limit_uses_nominal_clock() {
    assert_eq!(hw(2, 4, 0).cpu_limit_mhz(), 16000);
    assert_eq!(hw(0, 4, 0).cpu_limit_mhz(), 0);
}

#[test]
fn zero_limits_give_zero_percentages() {
    let c = config(8000, 9000, 300);
    let s = evaluate_vm(&c, "vm-1", "a", &detail(PowerState::PoweredOn, ToolsStatus::Running), &hw(0, 1, 0), None, &usage(1200, 2048), None, 0);
    assert_eq!(s.cpu_usage_percent, 0);
    assert_eq!(s.memory_usage_percent, 0);
    assert!(s.issues.is_empty());
}

#[test]
fn issues_follow_detection_order() {
    let c = config(8000, 9000, 300);
    let issues = c.detect_issues(PowerState::PoweredOn, ToolsStatus::Unknown, 9500, 9100, Some(10));
    assert_eq!(issues, vec![IssueKind::UptimeShort, IssueKind::ToolsNotRunning, IssueKind::CpuHigh, IssueKind::MemoryHigh]);
    let at_threshold = c.detect_issues(PowerState::PoweredOn, ToolsStatus::Running, 8000, 9000, Some(300));
    assert!(at_threshold.is_empty());
}

#[test]
fn healthy_running_machine_has_no_issues() {
    let c = config(8000, 9000, 300);
    assert!(c.detect_issues(PowerState::PoweredOn, ToolsStatus::Running, 100, 100, None).is_empty());
    assert!(!c.detect_issues(PowerState::PoweredOn, ToolsStatus::NotRunning, 100, 100, None).is_empty());
    assert!(!c.detect_issues(PowerState::PoweredOn, ToolsStatus::Running, 8001, 100, None).is_empty());
    assert!(!c.detect_issues(PowerState::PoweredOn, ToolsStatus::Running, 100, 9001, None).is_empty());
    assert!(!c.detect_issues(PowerState::PoweredOn, ToolsStatus::Running, 100, 100, Some(299)).is_empty());
}

#[test]
fn stopped_machines_carry_only_their_power_tag() {
    let c = config(8000, 9000, 300);
    let off = c.detect_issues(PowerState::PoweredOff, ToolsStatus::NotRunning, 9900, 9900, Some(1));
    assert_eq!(off, vec![IssueKind::PoweredOff]);
    let susp = c.detect_issues(PowerState::Suspended, ToolsStatus::Unknown, 9900, 9900, Some(1));
    assert_eq!(susp, vec![IssueKind::Suspended]);
}

#[test]
fn disabled_checks_add_no_tags() {
    let c = MonitorConfig::new(8000, 9000, 300, false, false).unwrap();
    let issues = c.detect_issues(PowerState::PoweredOn, ToolsStatus::NotRunning, 100, 100, Some(5));
    assert!(issues.is_empty());
}

#[test]
fn three_machine_scenario() {
    let c = config(8000, 9000, 300);
    let a = evaluate_vm(&c, "vm-a", "A", &detail(PowerState::PoweredOn, ToolsStatus::Running), &hw(1, 1, 4096), None, &usage(600, 2048), None, 0);
    assert_eq!(a.cpu_usage_percent, 3000);
    assert_eq!(a.memory_usage_percent, 5000);
    assert!(a.issues.is_empty());
    let b = evaluate_vm(&c, "vm-b", "B", &detail(PowerState::PoweredOff, ToolsStatus::NotRunning), &hw(1, 1, 4096), None, &usage(600, 2048), None, 0);
    assert_eq!(b.issues, vec![IssueKind::PoweredOff]);
    assert_eq!(b.cpu_usage_mhz, 0);
    assert!(b.is_critical());
    let cc = evaluate_vm(&c, "vm-c", "C", &detail(PowerState::PoweredOn, ToolsStatus::NotRunning), &hw(1, 1, 4096), None, &usage(1900, 2048), None, 0);
    assert_eq!(cc.cpu_usage_percent, 9500);
    assert_eq!(cc.issues, vec![IssueKind::ToolsNotRunning, IssueKind::CpuHigh]);
    assert!(cc.is_critical());
    assert!(!a.is_critical());
}

#[test]
fn uptime_comes_from_boot_time() {
    let c = config(8000, 9000, 600);
    let d = VmDetail {
        power_state: PowerState::PoweredOn,
        tools_running_status: ToolsStatus::Running,
        boot_time: Some("2024-01-01T00:00:00Z".to_string()),
        host: None,
    };
    let now = 1704067200 + 300;
    let s = evaluate_vm_at(&c, "vm-1", "a", &d, &hw(1, 1, 1024), None, &usage(0, 0), now);
    assert_eq!(s.uptime_seconds, Some(300));
    assert_eq!(s.issues, vec![IssueKind::UptimeShort]);
    let offset = VmDetail { boot_time: Some("2024-01-01T01:00:00+01:00".to_string()), ..d };
    let s2 = evaluate_vm_at(&c, "vm-1", "a", &offset, &hw(1, 1, 1024), None, &usage(0, 0), now);
    assert_eq!(s2.uptime_seconds, Some(300));
}

#[test]
fn unreadable_boot_time_leaves_uptime_unknown() {
    let c = config(8000, 9000, 600);
    let d = VmDetail {
        power_state: PowerState::PoweredOn,
        tools_running_status: ToolsStatus::Running,
        boot_time: Some("yesterday".to_string()),
        host: None,
    };
    let s = evaluate_vm_at(&c, "vm-1", "a", &d, &hw(1, 1, 1024), None, &usage(0, 0), 1000);
    assert_eq!(s.uptime_seconds, None);
    assert!(s.issues.is_empty());
}

#[test]
fn metrics_are_zero_unless_running() {
    let p = PerformanceManager::new("h".to_string(), "u".to_string(), "p".to_string(), false);
    let off = p.get_vm_performance_metrics("vm-1", PowerState::Suspended);
    assert_eq!(off, Utilization { cpu_usage_mhz: 0, cpu_usage_percent: 0, memory_usage_mb: 0, memory_usage_percent: 0 });
    let on = p.get_vm_performance_metrics("vm-1", PowerState::PoweredOn);
    assert_eq!(on.cpu_usage_mhz, 1200);
    assert_eq!(on.memory_usage_mb, 2048);
}

#[test]
fn state_names_round_trip() {
    for p in [PowerState::PoweredOn, PowerState::PoweredOff, PowerState::Suspended, PowerState::Unknown] {
        assert_eq!(PowerState::from_api(&p.name()), p);
    }
    for t in [ToolsStatus::Running, ToolsStatus::NotRunning, ToolsStatus::Unknown] {
        assert_eq!(ToolsStatus::from_api(&t.name()), t);
    }
    assert_eq!(PowerState::from_api("ON"), PowerState::Unknown);
    assert_eq!(IssueKind::ToolsNotRunning.name(), "TOOLS_NOT_RUNNING");
}
