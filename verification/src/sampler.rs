//! The telemetry sampler: one snapshot of the host's processor load and
//! memory, with the graphics processor's numbers where there are any.

use crate::helpers::{avg_vecu32, sum_u32};
use vstd::prelude::*;

verus! {

/// The host's metrics handle of `sysinfo`, opaque to the verifier.
#[verifier::external_type_specification]
#[verifier::external_body]
pub struct ExSystem(sysinfo::System);

/// One processor core of `sysinfo`, opaque to the verifier.
#[verifier::external_type_specification]
#[verifier::external_body]
pub struct ExCpu(sysinfo::Cpu);

/// What the graphics processor reports, as numbers.
#[derive(Clone, Copy, Debug, PartialEq, Eq)]
pub struct GpuSample {
    /// Load in percent.
    pub usage: u64,
    /// Total memory in bytes.
    pub vram_total: u64,
    /// Memory in use in bytes.
    pub vram_used: u64,
}

/// One snapshot of the host's load.
#[derive(Clone, Copy, Debug, PartialEq, Eq)]
pub struct Sample {
    /// Mean processor load over the cores, in percent.
    pub cpu: u32,
    /// Total memory in bytes.
    pub ram_total: u64,
    /// Memory in use in bytes.
    pub ram_used: u64,
    /// The graphics processor's report, where there is one.
    pub gpu: Option<GpuSample>,
}

/// The mean of the cores' loads, rounded down; 0 for a host that reports no
/// core.
pub open spec fn mean_load(loads: Seq<u32>) -> nat {
    if loads.len() == 0 {
        0
    } else {
        sum_u32(loads) / loads.len()
    }
}

/// Calls `SystemExt::refresh_all`, which reads the host's state anew. What
/// it finds is not known beforehand, so nothing is claimed.
#[verifier::external_body]
fn refresh(system: &mut sysinfo::System) {
    sysinfo::SystemExt::refresh_all(system);
}

/// Calls `SystemExt::total_memory`: the host's memory in bytes, as last
/// refreshed. Nothing is claimed of the number.
#[verifier::external_body]
fn total_memory(system: &sysinfo::System) -> (bytes: u64) {
    sysinfo::SystemExt::total_memory(system)
}

/// Calls `SystemExt::used_memory`: the memory in use in bytes, as last
/// refreshed. Nothing is claimed of the number.
#[verifier::external_body]
fn used_memory(system: &sysinfo::System) -> (bytes: u64) {
    sysinfo::SystemExt::used_memory(system)
}

/// Calls `SystemExt::cpus`: the host's cores, as last refreshed. Nothing is
/// claimed of the list, not even that it holds a core.
#[verifier::external_body]
fn cores(system: &sysinfo::System) -> (found: Vec<&sysinfo::Cpu>) {
    sysinfo::SystemExt::cpus(system).iter().collect()
}

/// Calls `CpuExt::cpu_usage`: the core's load in percent, cut to a whole
/// number. Nothing is claimed of the number.
#[verifier::external_body]
fn core_load(core: &sysinfo::Cpu) -> (percent: u32) {
    sysinfo::CpuExt::cpu_usage(core) as u32
}

impl Sample {
    /// The sample that the host's readings make.
    pub fn from_readings(
        loads: Vec<u32>,
        ram_total: u64,
        ram_used: u64,
        gpu: Option<GpuSample>,
    ) -> (taken: Sample)
        ensures
            taken.cpu == mean_load(loads@),
            taken.ram_total == ram_total,
            taken.ram_used == ram_used,
            taken.gpu == gpu,
    {
        let cpu = if loads.len() == 0 {
            0
        } else {
            avg_vecu32(loads)
        };
        Sample { cpu, ram_total, ram_used, gpu }
    }
}

/// Refreshes `system` and takes one sample of the host. The graphics part is
/// the one given; the rest is whatever the host reports.
pub fn sample(system: &mut sysinfo::System, gpu: Option<GpuSample>) -> (taken: Sample)
    ensures
        taken.gpu == gpu,
{
    refresh(system);
    let ram_total = total_memory(system);
    let ram_used = used_memory(system);
    let found = cores(system);
    let mut loads: Vec<u32> = Vec::new();
    let mut i: usize = 0;
    while i < found.len()
        invariant
            i <= found.len(),
        decreases found.len() - i,
    {
        loads.push(core_load(found[i]));
        i = i + 1;
    }
    Sample::from_readings(loads, ram_total, ram_used, gpu)
}

} // verus!
