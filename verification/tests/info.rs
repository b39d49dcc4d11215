//! The telemetry snapshot type and the millidegree conversion.

use aorus_gateway::info::{millidegrees_to_degrees, SystemInfo};

#[test]
fn millidegrees_truncate_toward_zero() {
    assert_eq!(millidegrees_to_degrees(45000), 45);
    assert_eq!(millidegrees_to_degrees(45999), 45);
    assert_eq!(millidegrees_to_degrees(999), 0);
    assert_eq!(millidegrees_to_degrees(0), 0);
    assert_eq!(millidegrees_to_degrees(-1500), -1);
}

#[test]
fn zeroed_snapshot_reports_nothing() {
    let info = SystemInfo::zeroed();
    assert_eq!(
        info,
        SystemInfo { cpu_temp: 0, gpu_temp: 0, mb_temp: 0, cpu_fan_rpm: 0, gpu_fan_rpm: 0 }
    );
}
