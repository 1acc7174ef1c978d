//! Advisory check of the host's resources.
//!
//! A snapshot of the host is taken once and turned into a list of
//! warnings. A warning never blocks startup: low-end devices must degrade,
//! not refuse to run.

use vstd::prelude::*;

verus! {

/// Hosts with less memory than this, in bytes, draw a low-memory warning.
pub const MIN_MEMORY_BYTES: u64 = 1_000_000_000;

/// Hosts with fewer cores than this draw a low-CPU warning.
pub const MIN_CORE_COUNT: u32 = 2;

/// What the host offers, as seen once at startup.
#[derive(Clone, Copy, Debug, PartialEq, Eq, Structural)]
pub struct SystemCapabilities {
    pub total_memory_bytes: u64,
    pub core_count: u32,
}

/// An advisory finding about the host.
#[derive(Clone, Copy, Debug, PartialEq, Eq, Structural)]
pub enum Warning {
    LowMemory,
    LowCpu,
}

/// The warnings that a snapshot draws: low memory first, then low CPU.
pub open spec fn warnings_for(capabilities: SystemCapabilities) -> Seq<Warning> {
    let memory = if capabilities.total_memory_bytes < MIN_MEMORY_BYTES {
        seq![Warning::LowMemory]
    } else {
        Seq::<Warning>::empty()
    };
    let cpu = if capabilities.core_count < MIN_CORE_COUNT {
        seq![Warning::LowCpu]
    } else {
        Seq::<Warning>::empty()
    };
    memory + cpu
}

/// The capability check: a pure function of the snapshot.
pub fn check(capabilities: SystemCapabilities) -> (warnings: Vec<Warning>)
    ensures
        warnings@ == warnings_for(capabilities),
{
    let mut warnings: Vec<Warning> = Vec::new();
    if capabilities.total_memory_bytes < MIN_MEMORY_BYTES {
        warnings.push(Warning::LowMemory);
    }
    if capabilities.core_count < MIN_CORE_COUNT {
        warnings.push(Warning::LowCpu);
    }
    warnings
}

/// A snapshot together with the warnings that it draws.
#[derive(Debug, PartialEq, Eq)]
pub struct CapabilityReport {
    pub capabilities: SystemCapabilities,
    pub warnings: Vec<Warning>,
}

/// Calls `sysinfo::System::new_all` and reads `total_memory` from it: the
/// host's RAM in bytes. The value depends on the machine, so nothing is
/// claimed of it.
#[verifier::external_body]
fn host_total_memory() -> (bytes: u64) {
    sysinfo::System::new_all().total_memory()
}

/// Calls `num_cpus::get`: the number of logical cores available to this
/// process. The value depends on the machine, so nothing is claimed of it.
#[verifier::external_body]
fn host_core_count() -> (cores: usize) {
    num_cpus::get()
}

/// The core count as the snapshot holds it: counts beyond `u32` saturate.
pub open spec fn core_count_of(cores: usize) -> u32 {
    if cores > u32::MAX {
        u32::MAX
    } else {
        cores as u32
    }
}

impl SystemCapabilities {
    /// Builds the snapshot from what the host reported.
    pub fn from_host(total_memory_bytes: u64, cores: usize) -> (capabilities: SystemCapabilities)
        ensures
            capabilities.total_memory_bytes == total_memory_bytes,
            capabilities.core_count == core_count_of(cores),
    {
        let core_count: u32 = if cores > u32::MAX as usize {
            u32::MAX
        } else {
            cores as u32
        };
        SystemCapabilities { total_memory_bytes, core_count }
    }

    /// Queries the host once. Whatever the host reports, a snapshot comes back.
    pub fn detect() -> (capabilities: SystemCapabilities) {
        let total_memory_bytes = host_total_memory();
        let cores = host_core_count();
        SystemCapabilities::from_host(total_memory_bytes, cores)
    }
}

/// Takes the host's snapshot and the warnings that it draws. This never
/// fails: whatever the host reports, the findings are advisory.
pub fn validate_system_capabilities() -> (report: CapabilityReport)
    ensures
        report.warnings@ == warnings_for(report.capabilities),
{
    let capabilities = SystemCapabilities::detect();
    let warnings = check(capabilities);
    CapabilityReport { capabilities, warnings }
}

} // verus!
