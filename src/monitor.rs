//! The monitor: a gateway, a metrics provider and the run's settings.
use vstd::prelude::*;
use crate::evaluate::{
    ConfigError, FULL_PERCENT, HardwareInfo, MonitorConfig, VmDetail, boot_epoch_of,
    evaluate_vm_at, expected_snapshot,
};
use crate::gateway::VCenterAPIClient;
use crate::metrics::{PerformanceManager, metrics_for};
use crate::model::{VmSnapshot, opt_str_view};

verus! {

pub struct VMResourceMonitor {
    pub api_client: VCenterAPIClient,
    pub perf_manager: PerformanceManager,
    pub config: MonitorConfig,
}

impl VMResourceMonitor {
    /// Validates the settings (percentages in hundredths, in (0, 100%]; the
    /// uptime threshold in minutes, not negative) and builds the monitor.
    pub fn new(
        api_client: VCenterAPIClient,
        perf_manager: PerformanceManager,
        cpu_threshold: u64,
        memory_threshold: u64,
        check_boot_issues: bool,
        check_tools: bool,
        uptime_threshold_minutes: i64,
    ) -> (r: Result<VMResourceMonitor, ConfigError>)
        ensures
            r is Ok <==> (0 < cpu_threshold <= FULL_PERCENT) && (0 < memory_threshold
                <= FULL_PERCENT) && 0 <= uptime_threshold_minutes && uptime_threshold_minutes * 60
                <= i64::MAX,
            !(0 < cpu_threshold <= FULL_PERCENT) ==> r == Err::<VMResourceMonitor, ConfigError>(
                ConfigError::CpuThresholdOutOfRange,
            ),
            (0 < cpu_threshold <= FULL_PERCENT) && !(0 < memory_threshold <= FULL_PERCENT) ==> r
                == Err::<VMResourceMonitor, ConfigError>(ConfigError::MemoryThresholdOutOfRange),
            (0 < cpu_threshold <= FULL_PERCENT) && (0 < memory_threshold <= FULL_PERCENT)
                && uptime_threshold_minutes < 0 ==> r == Err::<VMResourceMonitor, ConfigError>(
                ConfigError::NegativeUptimeThreshold,
            ),
            (0 < cpu_threshold <= FULL_PERCENT) && (0 < memory_threshold <= FULL_PERCENT) && 0
                <= uptime_threshold_minutes && uptime_threshold_minutes * 60 > i64::MAX ==> r
                == Err::<VMResourceMonitor, ConfigError>(ConfigError::UptimeThresholdTooLarge),
            r matches Ok(m) ==> m.api_client == api_client && m.perf_manager == perf_manager
                && m.config.wf() && m.config.cpu_threshold == cpu_threshold
                && m.config.memory_threshold == memory_threshold
                && m.config.uptime_threshold_seconds == uptime_threshold_minutes * 60
                && m.config.check_boot_issues == check_boot_issues && m.config.check_tools
                == check_tools,
    {
        let seconds = if uptime_threshold_minutes < 0 {
            -1
        } else {
            match uptime_threshold_minutes.checked_mul(60) {
                Some(s) => s,
                None => {
                    if 0 < cpu_threshold && cpu_threshold <= FULL_PERCENT && 0 < memory_threshold
                        && memory_threshold <= FULL_PERCENT {
                        return Err(ConfigError::UptimeThresholdTooLarge);
                    }
                    -1
                },
            }
        };
        match MonitorConfig::new(
            cpu_threshold,
            memory_threshold,
            seconds,
            check_boot_issues,
            check_tools,
        ) {
            Ok(config) => Ok(VMResourceMonitor { api_client, perf_manager, config }),
            Err(e) => Err(e),
        }
    }

    /// Evaluates one machine from its detail, hardware and host name at the
    /// instant `now`, with utilization from the metrics provider.
    pub fn analyze_vm_resources(
        &self,
        vm_id: &str,
        vm_name: &str,
        detail: &VmDetail,
        hardware: &HardwareInfo,
        host_name: Option<String>,
        now: i64,
    ) -> (r: VmSnapshot)
        ensures
            r@ == expected_snapshot(
                    self.config,
                    vm_id@,
                    vm_name@,
                    *detail,
                    *hardware,
                    opt_str_view(host_name),
                    metrics_for(detail.power_state),
                    boot_epoch_of(*detail),
                    now,
                ),
            self.config.classifies(r@),
    {
        let usage = self.perf_manager.get_vm_performance_metrics(vm_id, detail.power_state);
        evaluate_vm_at(&self.config, vm_id, vm_name, detail, hardware, host_name, &usage, now)
    }
}

} // verus!
