//! The dispatcher against the in-memory accessor: end-to-end scenarios,
//! idempotent reads, and the ordering guarantee that a rejected name
//! never reaches an accessor.

use aorus_gateway::accessor::MemAccessor;
use aorus_gateway::command::{plan, Action};
use aorus_gateway::gateway::{dispatch, read_attribute, write_attribute, check_permissions};

fn argv(parts: &[&str]) -> Vec<String> {
    let mut v = vec!["aorus-helper".to_string()];
    for p in parts {
        v.push(p.to_string());
    }
    v
}

fn exit_code(r: &Result<String, aorus_gateway::errors::GatewayError>) -> i32 {
    if r.is_ok() { 0 } else { 1 }
}

#[test]
fn missing_verb_is_a_usage_error() {
    let mut acc = MemAccessor::new();
    let r = dispatch(&argv(&[]), &mut acc);
    assert_eq!(exit_code(&r), 1);
    assert_eq!(r.unwrap_err().message(), "Usage: aorus-helper <command> [args...]");
}

#[test]
fn read_without_attribute_is_a_usage_error() {
    let mut acc = MemAccessor::new();
    let r = dispatch(&argv(&["read"]), &mut acc);
    assert_eq!(r.unwrap_err().message(), "Usage: aorus-helper read <attribute>");
}

#[test]
fn write_without_value_is_a_usage_error() {
    let mut acc = MemAccessor::new();
    let r = dispatch(&argv(&["write", "fan_mode"]), &mut acc);
    assert_eq!(r.unwrap_err().message(), "Usage: aorus-helper write <attribute> <value>");
}

#[test]
fn unknown_verb_is_named() {
    let mut acc = MemAccessor::new();
    let r = dispatch(&argv(&["poke", "fan_mode"]), &mut acc);
    assert_eq!(r.unwrap_err().message(), "Unknown command: poke");
}

#[test]
fn rejected_write_value_reports_domain_and_writes_nothing() {
    let mut acc = MemAccessor::new();
    let seed = dispatch(&argv(&["write", "fan_mode", "2"]), &mut acc);
    assert_eq!(exit_code(&seed), 0);
    let r = dispatch(&argv(&["write", "fan_mode", "6"]), &mut acc);
    assert_eq!(exit_code(&r), 1);
    assert!(r.unwrap_err().message().contains("fan_mode must be 0-5"));
    // the store still holds the value from before the rejected write
    let back = dispatch(&argv(&["read", "fan_mode"]), &mut acc);
    assert_eq!(back.unwrap(), "2");
}

#[test]
fn accepted_write_records_the_value() {
    let mut acc = MemAccessor::new();
    let r = dispatch(&argv(&["write", "fan_mode", "3"]), &mut acc);
    assert_eq!(exit_code(&r), 0);
    assert_eq!(r.unwrap(), "");
    let back = dispatch(&argv(&["read", "fan_mode"]), &mut acc);
    assert_eq!(back.unwrap(), "3");
}

#[test]
fn read_reports_trimmed_content() {
    let mut acc = MemAccessor::new();
    let _ = write_attribute(&mut acc, "battery_cycle", "142\n");
    let r = dispatch(&argv(&["read", "battery_cycle"]), &mut acc);
    assert_eq!(exit_code(&r), 0);
    assert_eq!(r.unwrap(), "142");
}

#[test]
fn read_of_absent_attribute_fails() {
    let mut acc = MemAccessor::new();
    let r = dispatch(&argv(&["read", "fan_mode"]), &mut acc);
    assert_eq!(exit_code(&r), 1);
    assert_eq!(r.unwrap_err().message(), "Failed to read fan_mode: attribute not present");
}

#[test]
fn check_passes_when_probe_is_readable() {
    let mut acc = MemAccessor::new();
    let _ = write_attribute(&mut acc, "fan_mode", "0");
    let r = dispatch(&argv(&["check"]), &mut acc);
    assert_eq!(exit_code(&r), 0);
    assert_eq!(r.unwrap(), "ok");
}

#[test]
fn check_fails_when_probe_is_unreadable() {
    let mut acc = MemAccessor::new();
    let r = dispatch(&argv(&["check"]), &mut acc);
    assert_eq!(exit_code(&r), 1);
    assert!(r.unwrap_err().message().starts_with("Permission check failed: "));
}

#[test]
fn reading_twice_returns_the_same_value() {
    let mut acc = MemAccessor::new();
    acc.write("charge_limit", "80\n");
    let first = dispatch(&argv(&["read", "charge_limit"]), &mut acc);
    let second = dispatch(&argv(&["read", "charge_limit"]), &mut acc);
    assert_eq!(first.as_ref().unwrap(), "80");
    assert_eq!(first.unwrap(), second.unwrap());
}

/// An accessor stand-in that counts how often it is entered.
struct CountingStub {
    calls: usize,
    inner: MemAccessor,
}

impl CountingStub {
    fn run(&mut self, args: &Vec<String>) -> Result<String, aorus_gateway::errors::GatewayError> {
        match plan(args) {
            Err(e) => Err(e),
            Ok(Action::Read(attr)) => {
                self.calls += 1;
                read_attribute(&self.inner, attr.as_str())
            }
            Ok(Action::Write(attr, value)) => {
                self.calls += 1;
                write_attribute(&mut self.inner, attr.as_str(), value.as_str())
            }
            Ok(Action::Check) => {
                self.calls += 1;
                check_permissions(&self.inner)
            }
        }
    }
}

#[test]
fn rejected_attribute_never_reaches_the_accessor() {
    let mut stub = CountingStub { calls: 0, inner: MemAccessor::new() };
    for args in [
        argv(&["read", "fan_mode/../../etc/passwd"]),
        argv(&["read", "FAN_MODE"]),
        argv(&["write", "fan_mode/../../etc/passwd", "3"]),
        argv(&["write", "shadow", "x"]),
    ] {
        let r = stub.run(&args);
        assert!(r.is_err());
    }
    assert_eq!(stub.calls, 0);
}

#[test]
fn rejected_value_never_reaches_the_accessor() {
    let mut stub = CountingStub { calls: 0, inner: MemAccessor::new() };
    let r = stub.run(&argv(&["write", "fan_mode", "6"]));
    assert!(r.is_err());
    assert_eq!(stub.calls, 0);
}

#[test]
fn accepted_invocations_do_reach_the_accessor() {
    let mut stub = CountingStub { calls: 0, inner: MemAccessor::new() };
    let _ = stub.run(&argv(&["write", "fan_mode", "3"]));
    let _ = stub.run(&argv(&["read", "fan_mode"]));
    let _ = stub.run(&argv(&["check"]));
    assert_eq!(stub.calls, 3);
}
