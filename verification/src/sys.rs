//! Trusted boundary to the system-metrics library and the clock. Each
//! reading depends on the machine's state at the instant of the call, so
//! nothing is promised of the returned values; the verified controller
//! clamps and stores them whatever they are.

use vstd::prelude::*;
use sysinfo::{CpuRefreshKind, RefreshKind, System};

verus! {

/// Declares sysinfo's `System` so it can stand in fields and
/// signatures; its contents stay opaque to the verifier.
#[verifier::external_type_specification]
#[verifier::external_body]
pub struct ExSystem(System);

/// Relies on sysinfo's `System::new_with_specifics`: builds a metric
/// source that tracks CPU usage and memory, without per-process data.
#[verifier::external_body]
pub(crate) fn new_system() -> (s: System) {
    System::new_with_specifics(
        RefreshKind::new().with_cpu(CpuRefreshKind::new().with_cpu_usage()).without_processes(),
    )
}

/// Relies on sysinfo's `System::refresh_all`: re-reads the current
/// system metrics into the source.
#[verifier::external_body]
pub(crate) fn refresh_system(sys: &mut System) {
    sys.refresh_all();
}

/// Relies on sysinfo's `System::global_cpu_info` and `Cpu::cpu_usage`:
/// the averaged CPU utilization since the previous refresh, truncated
/// toward zero. The reading is not guaranteed to lie in [0, 100].
#[verifier::external_body]
pub(crate) fn cpu_percent_raw(sys: &System) -> (r: i32) {
    sys.global_cpu_info().cpu_usage() as i32
}

/// Relies on sysinfo's `System::total_memory`: total RAM in bytes as of
/// the last refresh.
#[verifier::external_body]
pub(crate) fn total_memory(sys: &System) -> (r: u64) {
    sys.total_memory()
}

/// Relies on sysinfo's `System::used_memory`: used RAM in bytes as of
/// the last refresh.
#[verifier::external_body]
pub(crate) fn used_memory(sys: &System) -> (r: u64) {
    sys.used_memory()
}

/// Relies on chrono's `From<SystemTime> for DateTime<Utc>` and
/// `DateTime::timestamp_millis`: the current wall-clock instant as
/// milliseconds since the epoch, taken modulo 2^64. The `From`
/// conversion tolerates a clock set before the epoch without panicking;
/// such an instant yields negative milliseconds, which the cast wraps.
#[verifier::external_body]
pub(crate) fn now_ms() -> (t: u64) {
    chrono::DateTime::<chrono::Utc>::from(std::time::SystemTime::now()).timestamp_millis() as u64
}

} // verus!
