//! The registry's exact membership and every attribute's value domain.

use aorus_gateway::registry::{is_allowed, validate_attribute};
use aorus_gateway::validate::validate_value;

fn accepts(attr: &str, value: &str) -> bool {
    validate_value(attr, value).is_ok()
}

fn rejection_message(attr: &str, value: &str) -> String {
    validate_value(attr, value).unwrap_err().message()
}

#[test]
fn registry_accepts_every_fixed_name() {
    for name in [
        "fan_mode",
        "fan_custom_speed",
        "charge_mode",
        "charge_limit",
        "gpu_boost",
        "usb_charge_s3_toggle",
        "usb_charge_s4_toggle",
        "battery_cycle",
        "fan_curve_index",
        "fan_curve_data",
    ] {
        assert!(is_allowed(name), "{name} must be allowed");
        assert!(validate_attribute(name).is_ok());
    }
}

#[test]
fn registry_rejects_everything_else() {
    for name in [
        "",
        "fan_mode/../../etc/passwd",
        "FAN_MODE",
        "Fan_Mode",
        "fan_mode ",
        " fan_mode",
        "fan_modex",
        "fan_mod",
        "fan_mode\n",
        "fan_mode/",
        "../fan_mode",
        "charge_limit2",
        "shadow",
        "/etc/passwd",
    ] {
        assert!(!is_allowed(name), "{name:?} must be rejected");
        assert!(validate_attribute(name).is_err());
    }
}

#[test]
fn registry_rejection_names_the_attribute() {
    let err = validate_attribute("nope").unwrap_err();
    assert_eq!(err.message(), "Attribute 'nope' not allowed");
}

#[test]
fn fan_mode_domain_is_zero_to_five() {
    for v in ["0", "1", "2", "3", "4", "5", "+5", "05"] {
        assert!(accepts("fan_mode", v), "{v} must be accepted");
    }
    for v in ["6", "-1", "256", "abc", "", "5.0", " 5", "5 "] {
        assert!(!accepts("fan_mode", v), "{v:?} must be rejected");
        assert_eq!(rejection_message("fan_mode", v), "fan_mode must be 0-5");
    }
}

#[test]
fn fan_custom_speed_domain_is_stepped() {
    for v in ["25", "30", "50", "100"] {
        assert!(accepts("fan_custom_speed", v), "{v} must be accepted");
    }
    for v in ["52", "101", "24", "20", "0", "abc", ""] {
        assert!(!accepts("fan_custom_speed", v), "{v:?} must be rejected");
        assert_eq!(
            rejection_message("fan_custom_speed", v),
            "fan_custom_speed must be 25-100 and divisible by 5"
        );
    }
}

#[test]
fn charge_mode_domain_is_binary() {
    assert!(accepts("charge_mode", "0"));
    assert!(accepts("charge_mode", "1"));
    assert!(!accepts("charge_mode", "2"));
    assert_eq!(rejection_message("charge_mode", "2"), "charge_mode must be 0-1");
}

#[test]
fn charge_limit_domain_is_sixty_to_hundred() {
    assert!(accepts("charge_limit", "60"));
    assert!(accepts("charge_limit", "100"));
    assert!(!accepts("charge_limit", "59"));
    assert!(!accepts("charge_limit", "101"));
    assert_eq!(rejection_message("charge_limit", "59"), "charge_limit must be 60-100");
}

#[test]
fn gpu_boost_domain_is_zero_to_three() {
    assert!(accepts("gpu_boost", "0"));
    assert!(accepts("gpu_boost", "3"));
    assert!(!accepts("gpu_boost", "4"));
    assert_eq!(rejection_message("gpu_boost", "4"), "gpu_boost must be 0-3");
}

#[test]
fn usb_charge_toggles_are_binary() {
    for attr in ["usb_charge_s3_toggle", "usb_charge_s4_toggle"] {
        assert!(accepts(attr, "0"));
        assert!(accepts(attr, "1"));
        assert!(!accepts(attr, "2"));
        assert_eq!(rejection_message(attr, "2"), format!("{attr} must be 0 or 1"));
    }
}

#[test]
fn fan_curve_index_domain_is_zero_to_fourteen() {
    assert!(accepts("fan_curve_index", "0"));
    assert!(accepts("fan_curve_index", "14"));
    assert!(!accepts("fan_curve_index", "15"));
    assert_eq!(rejection_message("fan_curve_index", "15"), "fan_curve_index must be 0-14");
}

#[test]
fn fan_curve_data_takes_any_sixteen_bit_value() {
    assert!(accepts("fan_curve_data", "0"));
    assert!(accepts("fan_curve_data", "65535"));
    assert!(!accepts("fan_curve_data", "65536"));
    assert!(!accepts("fan_curve_data", "-1"));
    assert!(!accepts("fan_curve_data", "abc"));
    assert_eq!(
        rejection_message("fan_curve_data", "65536"),
        "fan_curve_data must be a valid 16-bit number"
    );
}

#[test]
fn unlisted_attributes_accept_any_value_on_write() {
    // battery_cycle has no write domain; the fallback deliberately
    // accepts anything once the registry has accepted the name
    assert!(accepts("battery_cycle", "whatever"));
    assert!(accepts("battery_cycle", ""));
}
