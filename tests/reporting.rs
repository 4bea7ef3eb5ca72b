use vcenter_vm_monitor::evaluate::{evaluate_vm, HardwareInfo, MonitorConfig, Utilization, VmDetail};
use vcenter_vm_monitor::json::Json;
use vcenter_vm_monitor::model::{IssueKind, PowerState, ToolsStatus, VmSnapshot};
use vcenter_vm_monitor::report::{
    read_issue_histogram, read_power_histogram, structured_report, IssueHistogram, PowerHistogram,
    ToolsHistogram,
};
use vcenter_vm_monitor::gateway::{GatewayError, VmRecord};
use vcenter_vm_monitor::results::{after_lookup, LookupOutcome, LookupStep, MonitoringMode, MonitoringResults};
use vcenter_vm_monitor::text::{decimal_string, fixed2_string, format_uptime};

fn cfg() -> MonitorConfig {
    MonitorConfig::new(8000, 9000, 300, true, true).unwrap()
}

fn snap(name: &str, power: PowerState, tools: ToolsStatus, cpu: u32) -> VmSnapshot {
    let d = VmDetail { power_state: power, tools_running_status: tools, boot_time: None, host: None };
    let hw = HardwareInfo { cpu_count: 1, cores_per_socket: 1, memory_limit_mb: 4096 };
    let u = Utilization { cpu_usage_mhz: cpu, cpu_usage_percent: 0, memory_usage_mb: 2048, memory_usage_percent: 0 };
    evaluate_vm(&cfg(), &format!("id-{}", name), name, &d, &hw, Some("esx-1".to_string()), &u, None, 0)
}

fn three() -> MonitoringResults {
    let names = vec!["A".to_string(), "B".to_string(), "C".to_string(), "D".to_string()];
    let outcomes = vec![
        LookupOutcome::Evaluated(snap("A", PowerState::PoweredOn, ToolsStatus::Running, 600)),
        LookupOutcome::Evaluated(snap("B", PowerState::PoweredOff, ToolsStatus::NotRunning, 0)),
        LookupOutcome::NotFound,
        LookupOutcome::Evaluated(snap("C", PowerState::PoweredOn, ToolsStatus::NotRunning, 1900)),
    ];
    MonitoringResults::from_outcomes(&names, outcomes)
}

#[test]
fn uptime_formatting() {
    assert_eq!(format_uptime(Some(90000)), "1d 1h");
    assert_eq!(format_uptime(Some(90)), "1m");
    assert_eq!(format_uptime(Some(3700)), "1h 1m");
    assert_eq!(format_uptime(Some(59)), "< 1m");
    assert_eq!(format_uptime(Some(0)), "< 1m");
    assert_eq!(format_uptime(Some(86400 * 3 + 120)), "3d 2m");
    assert_eq!(format_uptime(Some(-5)), "N/A");
    assert_eq!(format_uptime(None), "N/A");
}

#[test]
fn numbers_render_in_decimal() {
    assert_eq!(decimal_string(0), "0");
    assert_eq!(decimal_string(1204), "1204");
    assert_eq!(decimal_string(u64::MAX), u64::MAX.to_string());
    assert_eq!(fixed2_string(3050), "30.50");
    assert_eq!(fixed2_string(7), "0.07");
}

#[test]
fn result_set_keeps_order_and_not_found() {
    let r = three();
    let names: Vec<&str> = r.vm_statuses.iter().map(|s| s.vm_name.as_str()).collect();
    assert_eq!(names, vec!["A", "B", "C"]);
    let with: Vec<&str> = r.vms_with_issues.iter().map(|s| s.vm_name.as_str()).collect();
    assert_eq!(with, vec!["B", "C"]);
    assert_eq!(r.vms_not_found, vec!["C".to_string()]);
    assert_eq!(r.vms_with_issues[1].issues, vec![IssueKind::ToolsNotRunning, IssueKind::CpuHigh]);
    assert_eq!(r.exit_code(false), 2);
    assert_eq!(r.critical_names(), vec!["B".to_string(), "C".to_string()]);
}

#[test]
fn exit_codes() {
    let mut r = MonitoringResults::new();
    assert_eq!(r.exit_code(false), 0);
    assert_eq!(r.exit_code(true), 1);
    r.record("A", LookupOutcome::Evaluated(snap("A", PowerState::PoweredOn, ToolsStatus::Running, 600)));
    r.record("Z", LookupOutcome::Skipped);
    assert_eq!(r.vm_statuses.len(), 1);
    assert_eq!(r.exit_code(false), 0);
}

#[test]
fn duplicate_names_are_evaluated_twice() {
    let names = vec!["web".to_string(), "web".to_string()];
    let outcomes = vec![
        LookupOutcome::Evaluated(snap("web", PowerState::PoweredOff, ToolsStatus::Unknown, 0)),
        LookupOutcome::Evaluated(snap("web", PowerState::PoweredOff, ToolsStatus::Unknown, 0)),
    ];
    let r = MonitoringResults::from_outcomes(&names, outcomes);
    assert_eq!(r.vm_statuses.len(), 2);
    assert_eq!(r.vms_with_issues.len(), 2);
    assert!(r.vm_statuses.iter().all(|s| s.vm_name == "web"));
    assert_eq!(r.issue_histogram().powered_off, 2);
}

#[test]
fn histograms_round_trip_through_report() {
    let r = three();
    let doc = structured_report(&r, MonitoringMode::List, "vc.example", "2024-01-01T00:00:00+00:00", &cfg());
    let power = r.power_histogram();
    assert_eq!(power, PowerHistogram { powered_on: 2, powered_off: 1, suspended: 0 });
    assert_eq!(read_power_histogram(&doc), Some(power));
    let issues = r.issue_histogram();
    assert_eq!(issues, IssueHistogram { cpu_high: 1, memory_high: 0, powered_off: 1, suspended: 0, tools_not_running: 1, uptime_short: 0 });
    assert_eq!(read_issue_histogram(&doc), Some(issues));
    assert_eq!(r.tools_histogram(), ToolsHistogram { running: 1, not_running: 1 });
    assert_eq!(read_power_histogram(&Json::Null), None);
}

#[test]
fn structured_report_lists_every_snapshot() {
    let r = three();
    let doc = structured_report(&r, MonitoringMode::All, "vc.example", "t0", &cfg());
    let vms = match doc.get("vms") {
        Some(Json::Array(v)) => v,
        _ => panic!("no vms array"),
    };
    assert_eq!(vms.len(), 3);
    assert!(matches!(vms[2].get("vm_name"), Some(Json::Str(n)) if n == "C"));
    assert!(matches!(vms[2].get("cpu_usage_percent"), Some(Json::Fixed2(9500))));
    let meta = doc.get("metadata").unwrap();
    assert!(matches!(meta.get("total_vms"), Some(Json::Number(3))));
    assert!(matches!(meta.get("monitoring_mode"), Some(Json::Str(m)) if m == "all"));
    let th = meta.get("thresholds").unwrap();
    assert!(matches!(th.get("uptime_minutes"), Some(Json::Number(5))));
}

#[test]
fn snapshot_text_block() {
    let s = snap("C", PowerState::PoweredOn, ToolsStatus::NotRunning, 1900);
    let expected = "VM: C (ID: id-C)\n  Power state: POWERED_ON\n  Guest tools: NOT_RUNNING\n  Host: esx-1\n  Boot time: N/A\n  Uptime: N/A\n  CPU: 95.00% (1900/2000 MHz)\n  Memory: 50.00% (2048/4096 MB)\n  Issues detected: TOOLS_NOT_RUNNING, CPU_HIGH";
    assert_eq!(s.render_text(), expected);
}

#[test]
fn text_report_layout() {
    let r = three();
    let text = r.generate_report("2024-01-01 00:00:00", MonitoringMode::List, &cfg());
    let eq = "=".repeat(80);
    let dash = "-".repeat(80);
    assert!(text.starts_with(&format!("{}\nVCENTER MONITORING REPORT - 2024-01-01 00:00:00\n{}\n\n", eq, eq)));
    assert!(text.contains("Monitoring mode: LIST\nVMs analysed: 3\nVMs with issues: 2\nCPU threshold: 80.00%\nMemory threshold: 90.00%\n\n"));
    assert!(text.contains(&format!("ALERT - VMs WITH ISSUES:\n{}\n\nCPU_HIGH (1 VM(s)):\n{}\nVM: C", eq, dash)));
    let cpu = text.find("CPU_HIGH (1").unwrap();
    let off = text.find("POWERED_OFF (1").unwrap();
    let tools = text.find("TOOLS_NOT_RUNNING (1").unwrap();
    assert!(cpu < off && off < tools);
    assert!(!text.contains("MEMORY_HIGH ("));
    assert!(text.ends_with(&format!("Power state:\n  Powered on (POWERED_ON): 2\n  Powered off (POWERED_OFF): 1\n  Suspended (SUSPENDED): 0\n\nGuest tools (powered-on VMs):\n  Running: 1\n  Not running: 1\n\n{}\n", eq)));
    let quiet = MonitoringResults::new().generate_report("t", MonitoringMode::All, &cfg());
    assert!(quiet.contains("No issue detected on the VMs\n"));
}

#[test]
fn issue_tags_are_written_only_when_carried() {
    let r = three();
    let doc = structured_report(&r, MonitoringMode::List, "vc.example", "t0", &cfg());
    let tags = doc.get("statistics").unwrap().get("issues_by_type").unwrap();
    assert!(matches!(tags.get("CPU_HIGH"), Some(Json::Number(1))));
    assert!(matches!(tags.get("POWERED_OFF"), Some(Json::Number(1))));
    assert!(matches!(tags.get("TOOLS_NOT_RUNNING"), Some(Json::Number(1))));
    assert!(tags.get("MEMORY_HIGH").is_none());
    assert!(tags.get("SUSPENDED").is_none());
    assert!(tags.get("UPTIME_SHORT").is_none());
    let empty = structured_report(&MonitoringResults::new(), MonitoringMode::All, "h", "t", &cfg());
    assert!(matches!(empty.get("statistics").unwrap().get("issues_by_type"), Some(Json::Object(m)) if m.is_empty()));
    assert_eq!(read_issue_histogram(&empty), Some(IssueHistogram { cpu_high: 0, memory_high: 0, powered_off: 0, suspended: 0, tools_not_running: 0, uptime_short: 0 }));
}

#[test]
fn stopped_machine_shows_no_uptime() {
    let mut s = snap("B", PowerState::PoweredOff, ToolsStatus::NotRunning, 0);
    s.uptime_seconds = Some(7200);
    assert_eq!(s.format_uptime(), "N/A");
    assert!(s.render_text().contains("  Uptime: N/A\n"));
    let mut on = snap("A", PowerState::PoweredOn, ToolsStatus::Running, 600);
    on.uptime_seconds = Some(7200);
    assert_eq!(on.format_uptime(), "2h");
}

#[test]
fn lookup_answers_decide_the_next_step() {
    let rec = VmRecord { vm: "vm-1".to_string(), name: "a".to_string() };
    assert!(matches!(after_lookup(Ok(Some(rec))), LookupStep::Evaluate(ref r) if r.vm == "vm-1"));
    assert!(matches!(after_lookup(Ok(None)), LookupStep::Record(LookupOutcome::NotFound)));
    assert!(matches!(after_lookup(Err(GatewayError::Transport)), LookupStep::Record(LookupOutcome::Skipped)));
}
