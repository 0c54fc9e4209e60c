//! The stats provider: a fresh sample of the host's memory figures for each
//! response, taken through the `sysinfo` crate.

use vstd::prelude::*;

verus! {

/// Host memory figures at one instant, in kilobytes. Each snapshot is taken
/// fresh for one response and never shared across connections.
#[derive(Clone, Copy, PartialEq, Eq, Structural, Debug)]
pub struct StatsSnapshot {
    pub total_kb: u64,
    pub used_kb: u64,
}

#[verifier::external_type_specification]
#[verifier::external_body]
pub struct ExSystem(sysinfo::System);

/// Relies on `sysinfo::System::new_all`: a fresh handle with all system
/// information loaded.
#[verifier::external_body]
fn system_new_all() -> sysinfo::System {
    sysinfo::System::new_all()
}

/// Relies on `sysinfo::System::refresh_all`: brings the handle's view of the
/// host up to date.
#[verifier::external_body]
fn system_refresh_all(sys: &mut sysinfo::System) {
    sys.refresh_all();
}

/// Relies on `sysinfo::System::total_memory`: the host's RAM size in bytes.
/// The value depends on the machine at the instant of the call, so nothing
/// more can be promised of it.
#[verifier::external_body]
fn system_total_memory(sys: &sysinfo::System) -> u64 {
    sys.total_memory()
}

/// Relies on `sysinfo::System::used_memory`: the used RAM in bytes. The value
/// depends on the machine at the instant of the call, so nothing more can be
/// promised of it.
#[verifier::external_body]
fn system_used_memory(sys: &sysinfo::System) -> u64 {
    sys.used_memory()
}

/// Builds a snapshot from raw byte counts, converting to whole kilobytes.
pub fn snapshot_of_bytes(total_bytes: u64, used_bytes: u64) -> (s: StatsSnapshot)
    ensures
        s.total_kb == total_bytes / 1024,
        s.used_kb == used_bytes / 1024,
{
    StatsSnapshot { total_kb: total_bytes / 1024, used_kb: used_bytes / 1024 }
}

/// Samples the host's memory figures. The figures are whatever the host
/// reports at this instant; everything downstream is proved to hold of every
/// snapshot, so no promise about the sampled values is needed here.
pub fn sample_stats() -> StatsSnapshot {
    let mut sys = system_new_all();
    system_refresh_all(&mut sys);
    let total_bytes = system_total_memory(&sys);
    let used_bytes = system_used_memory(&sys);
    snapshot_of_bytes(total_bytes, used_bytes)
}

} // verus!
