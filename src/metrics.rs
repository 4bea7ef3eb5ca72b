//! The metrics provider: CPU and memory utilization of a machine.
use vstd::prelude::*;
use crate::evaluate::Utilization;
use crate::model::PowerState;

verus! {

/// Stand-in CPU usage of a running machine, in MHz.
pub const PLACEHOLDER_CPU_MHZ: u32 = 1200;

/// Stand-in CPU usage of a running machine, in hundredths of a percent.
pub const PLACEHOLDER_CPU_PERCENT: u64 = 3000;

/// Stand-in memory usage of a running machine, in MB.
pub const PLACEHOLDER_MEMORY_MB: u32 = 2048;

/// Stand-in memory usage of a running machine, in hundredths of a percent.
pub const PLACEHOLDER_MEMORY_PERCENT: u64 = 5000;

/// What the provider reports for a machine in state `power`.
pub open spec fn metrics_for(power: PowerState) -> Utilization {
    if power == PowerState::PoweredOn {
        Utilization {
            cpu_usage_mhz: PLACEHOLDER_CPU_MHZ,
            cpu_usage_percent: PLACEHOLDER_CPU_PERCENT,
            memory_usage_mb: PLACEHOLDER_MEMORY_MB,
            memory_usage_percent: PLACEHOLDER_MEMORY_PERCENT,
        }
    } else {
        Utilization {
            cpu_usage_mhz: 0,
            cpu_usage_percent: 0,
            memory_usage_mb: 0,
            memory_usage_percent: 0,
        }
    }
}

/// Source of utilization figures. Real-time counters are not queried: a
/// running machine reports fixed stand-in figures, any other reports zero.
pub struct PerformanceManager {
    pub vcenter_host: String,
    pub username: String,
    pub password: String,
    pub verify_ssl: bool,
}

impl PerformanceManager {
    pub fn new(vcenter_host: String, username: String, password: String, verify_ssl: bool) -> (r:
        PerformanceManager)
        ensures
            r.vcenter_host@ == vcenter_host@,
            r.username@ == username@,
            r.password@ == password@,
            r.verify_ssl == verify_ssl,
    {
        PerformanceManager { vcenter_host, username, password, verify_ssl }
    }

    /// Utilization of a machine: zero unless it is powered on.
    pub fn get_vm_performance_metrics(&self, vm_id: &str, power_state: PowerState) -> (r:
        Utilization)
        ensures
            r == metrics_for(power_state),
            power_state != PowerState::PoweredOn ==> r.is_zero(),
            power_state == PowerState::PoweredOn ==> r == (Utilization {
                cpu_usage_mhz: PLACEHOLDER_CPU_MHZ,
                cpu_usage_percent: PLACEHOLDER_CPU_PERCENT,
                memory_usage_mb: PLACEHOLDER_MEMORY_MB,
                memory_usage_percent: PLACEHOLDER_MEMORY_PERCENT,
            }),
    {
        if power_state != PowerState::PoweredOn {
            return Utilization::zero();
        }
        Utilization {
            cpu_usage_mhz: PLACEHOLDER_CPU_MHZ,
            cpu_usage_percent: PLACEHOLDER_CPU_PERCENT,
            memory_usage_mb: PLACEHOLDER_MEMORY_MB,
            memory_usage_percent: PLACEHOLDER_MEMORY_PERCENT,
        }
    }
}

} // verus!
