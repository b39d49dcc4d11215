//! The telemetry snapshot reported to the unprivileged side.
//!
//! Gathering the values is a plain scan of the sensor hierarchy with no
//! invariants to defend, so it lives outside the library; the snapshot
//! itself, and the conversion from the raw millidegree readings the
//! sensors report, are fixed here.

use vstd::prelude::*;

verus! {

/// One snapshot of the machine's thermal and fan state: temperatures in
/// whole degrees, fan speeds in RPM.
#[derive(Clone, Copy, Debug, PartialEq, Eq, Structural)]
pub struct SystemInfo {
    pub cpu_temp: i32,
    pub gpu_temp: i32,
    pub mb_temp: i32,
    pub cpu_fan_rpm: i32,
    pub gpu_fan_rpm: i32,
}

impl SystemInfo {
    /// A snapshot with every reading absent, reported as zero.
    pub fn zeroed() -> (r: SystemInfo)
        ensures
            r == (SystemInfo {
                cpu_temp: 0,
                gpu_temp: 0,
                mb_temp: 0,
                cpu_fan_rpm: 0,
                gpu_fan_rpm: 0,
            }),
    {
        SystemInfo { cpu_temp: 0, gpu_temp: 0, mb_temp: 0, cpu_fan_rpm: 0, gpu_fan_rpm: 0 }
    }
}

/// Converts a raw millidegree sensor reading to whole degrees, truncating
/// toward zero as integer division does.
pub fn millidegrees_to_degrees(raw: i32) -> (d: i32)
    ensures
        raw >= 0 ==> d == raw as int / 1000,
        raw < 0 ==> d == -((-(raw as int)) / 1000),
{
    raw / 1000
}

} // verus!
