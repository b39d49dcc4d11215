//! The validator engine: per-attribute value domains for writes.
//!
//! Consulted only after the registry has accepted the attribute. Each
//! listed attribute has a closed numeric domain; an attribute with no
//! listed domain — the read-only battery cycle counter among them —
//! accepts any value on write, deliberately mirroring the gateway's
//! long-standing external contract rather than tightening it.

use vstd::prelude::*;
use crate::errors::{DomainError, GatewayError};
use crate::parse::{
    dec_str_val, digits_part, is_dec_str, lemma_dec_val_nonneg, parse_u16, parse_u8,
};
use crate::text::str_eq;

verus! {

/// The value is a well-formed decimal whose value lies in `[lo, hi]`.
pub open spec fn in_range(v: Seq<char>, lo: int, hi: int) -> bool {
    is_dec_str(v) && lo <= dec_str_val(v) && dec_str_val(v) <= hi
}

/// The authoritative per-attribute write domains.
pub open spec fn value_ok(attr: Seq<char>, value: Seq<char>) -> bool {
    if attr == "fan_mode"@ {
        in_range(value, 0, 5)
    } else if attr == "fan_custom_speed"@ {
        in_range(value, 25, 100) && dec_str_val(value) % 5 == 0
    } else if attr == "charge_mode"@ {
        in_range(value, 0, 1)
    } else if attr == "charge_limit"@ {
        in_range(value, 60, 100)
    } else if attr == "gpu_boost"@ {
        in_range(value, 0, 3)
    } else if attr == "usb_charge_s3_toggle"@ {
        in_range(value, 0, 1)
    } else if attr == "usb_charge_s4_toggle"@ {
        in_range(value, 0, 1)
    } else if attr == "fan_curve_index"@ {
        in_range(value, 0, 14)
    } else if attr == "fan_curve_data"@ {
        in_range(value, 0, 65535)
    } else {
        true
    }
}

/// The domain violation a given attribute reports, for the attributes
/// that have a domain at all.
pub open spec fn domain_error_of(attr: Seq<char>) -> Option<DomainError> {
    if attr == "fan_mode"@ {
        Some(DomainError::FanMode)
    } else if attr == "fan_custom_speed"@ {
        Some(DomainError::FanCustomSpeed)
    } else if attr == "charge_mode"@ {
        Some(DomainError::ChargeMode)
    } else if attr == "charge_limit"@ {
        Some(DomainError::ChargeLimit)
    } else if attr == "gpu_boost"@ {
        Some(DomainError::GpuBoost)
    } else if attr == "usb_charge_s3_toggle"@ {
        Some(DomainError::UsbChargeS3)
    } else if attr == "usb_charge_s4_toggle"@ {
        Some(DomainError::UsbChargeS4)
    } else if attr == "fan_curve_index"@ {
        Some(DomainError::FanCurveIndex)
    } else if attr == "fan_curve_data"@ {
        Some(DomainError::FanCurveData)
    } else {
        None
    }
}

/// Accepts a write value exactly when it lies in the attribute's domain;
/// rejection names the violated domain and nothing else.
pub fn validate_value(attr: &str, value: &str) -> (r: Result<(), GatewayError>)
    ensures
        r is Ok <==> value_ok(attr@, value@),
        r matches Err(e) ==> (domain_error_of(attr@) matches Some(d) && e == GatewayError::Domain(
            d,
        )),
{
    proof {
        if is_dec_str(value@) {
            lemma_dec_val_nonneg(digits_part(value@));
        }
    }
    if str_eq(attr, "fan_mode") {
        match parse_u8(value) {
            Some(v) if v <= 5 => Ok(()),
            _ => Err(GatewayError::Domain(DomainError::FanMode)),
        }
    } else if str_eq(attr, "fan_custom_speed") {
        match parse_u8(value) {
            Some(v) if 25 <= v && v <= 100 && v % 5 == 0 => Ok(()),
            _ => Err(GatewayError::Domain(DomainError::FanCustomSpeed)),
        }
    } else if str_eq(attr, "charge_mode") {
        match parse_u8(value) {
            Some(v) if v <= 1 => Ok(()),
            _ => Err(GatewayError::Domain(DomainError::ChargeMode)),
        }
    } else if str_eq(attr, "charge_limit") {
        match parse_u8(value) {
            Some(v) if 60 <= v && v <= 100 => Ok(()),
            _ => Err(GatewayError::Domain(DomainError::ChargeLimit)),
        }
    } else if str_eq(attr, "gpu_boost") {
        match parse_u8(value) {
            Some(v) if v <= 3 => Ok(()),
            _ => Err(GatewayError::Domain(DomainError::GpuBoost)),
        }
    } else if str_eq(attr, "usb_charge_s3_toggle") {
        match parse_u8(value) {
            Some(v) if v <= 1 => Ok(()),
            _ => Err(GatewayError::Domain(DomainError::UsbChargeS3)),
        }
    } else if str_eq(attr, "usb_charge_s4_toggle") {
        match parse_u8(value) {
            Some(v) if v <= 1 => Ok(()),
            _ => Err(GatewayError::Domain(DomainError::UsbChargeS4)),
        }
    } else if str_eq(attr, "fan_curve_index") {
        match parse_u8(value) {
            Some(v) if v < 15 => Ok(()),
            _ => Err(GatewayError::Domain(DomainError::FanCurveIndex)),
        }
    } else if str_eq(attr, "fan_curve_data") {
        match parse_u16(value) {
            Some(_) => Ok(()),
            None => Err(GatewayError::Domain(DomainError::FanCurveData)),
        }
    } else {
        Ok(())
    }
}

} // verus!
