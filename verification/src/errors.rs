//! The gateway's error taxonomy.
//!
//! Internally an error is a tagged variant — a usage error, a validation
//! error, or a failure of the underlying file operation — and it collapses
//! to a single human-readable line only at the process boundary. The
//! message of each variant is pinned exactly by [`GatewayError::spec_message`].

use vstd::prelude::*;
use crate::text::{append_str, concat_str};

verus! {

/// Which attribute domain a rejected write value violated. Each variant
/// carries a fixed diagnostic line.
#[derive(Clone, Copy, Debug, PartialEq, Eq, Structural)]
pub enum DomainError {
    FanMode,
    FanCustomSpeed,
    ChargeMode,
    ChargeLimit,
    GpuBoost,
    UsbChargeS3,
    UsbChargeS4,
    FanCurveIndex,
    FanCurveData,
}

impl DomainError {
    /// The diagnostic line of this domain violation.
    pub open spec fn spec_message(self) -> Seq<char> {
        match self {
            DomainError::FanMode => "fan_mode must be 0-5"@,
            DomainError::FanCustomSpeed => "fan_custom_speed must be 25-100 and divisible by 5"@,
            DomainError::ChargeMode => "charge_mode must be 0-1"@,
            DomainError::ChargeLimit => "charge_limit must be 60-100"@,
            DomainError::GpuBoost => "gpu_boost must be 0-3"@,
            DomainError::UsbChargeS3 => "usb_charge_s3_toggle must be 0 or 1"@,
            DomainError::UsbChargeS4 => "usb_charge_s4_toggle must be 0 or 1"@,
            DomainError::FanCurveIndex => "fan_curve_index must be 0-14"@,
            DomainError::FanCurveData => "fan_curve_data must be a valid 16-bit number"@,
        }
    }

    /// Renders the diagnostic line.
    pub fn message(&self) -> (m: &'static str)
        ensures
            m@ == self.spec_message(),
    {
        match self {
            DomainError::FanMode => "fan_mode must be 0-5",
            DomainError::FanCustomSpeed => "fan_custom_speed must be 25-100 and divisible by 5",
            DomainError::ChargeMode => "charge_mode must be 0-1",
            DomainError::ChargeLimit => "charge_limit must be 60-100",
            DomainError::GpuBoost => "gpu_boost must be 0-3",
            DomainError::UsbChargeS3 => "usb_charge_s3_toggle must be 0 or 1",
            DomainError::UsbChargeS4 => "usb_charge_s4_toggle must be 0 or 1",
            DomainError::FanCurveIndex => "fan_curve_index must be 0-14",
            DomainError::FanCurveData => "fan_curve_data must be a valid 16-bit number",
        }
    }
}

/// An error of one gateway invocation: a usage error, a validation error
/// (attribute or value rejected), or a failure of the underlying file
/// operation, with the operation's own diagnostic text carried along.
#[derive(Clone, Debug)]
pub enum GatewayError {
    /// No command verb was given.
    Usage,
    /// `read` was given no attribute.
    UsageRead,
    /// `write` was given no attribute or no value.
    UsageWrite,
    /// The command verb is none of `read`, `write`, `check`.
    UnknownCommand(String),
    /// The attribute is not in the registry.
    NotAllowed(String),
    /// The value lies outside the attribute's domain.
    Domain(DomainError),
    /// The underlying read failed; carries the attribute and the
    /// operation's diagnostic text.
    ReadFailed(String, String),
    /// The underlying write failed; carries the value, the attribute and
    /// the operation's diagnostic text.
    WriteFailed(String, String, String),
    /// The permission probe failed; carries the operation's diagnostic
    /// text.
    CheckFailed(String),
}

impl GatewayError {
    /// The single human-readable line this error collapses to at the
    /// process boundary.
    pub open spec fn spec_message(self) -> Seq<char> {
        match self {
            GatewayError::Usage => "Usage: aorus-helper <command> [args...]"@,
            GatewayError::UsageRead => "Usage: aorus-helper read <attribute>"@,
            GatewayError::UsageWrite => "Usage: aorus-helper write <attribute> <value>"@,
            GatewayError::UnknownCommand(cmd) => "Unknown command: "@ + cmd@,
            GatewayError::NotAllowed(attr) => "Attribute '"@ + attr@ + "' not allowed"@,
            GatewayError::Domain(d) => d.spec_message(),
            GatewayError::ReadFailed(attr, detail) => "Failed to read "@ + attr@ + ": "@
                + detail@,
            GatewayError::WriteFailed(value, attr, detail) => "Failed to write "@ + value@ + " to "@
                + attr@ + ": "@ + detail@,
            GatewayError::CheckFailed(detail) => "Permission check failed: "@ + detail@,
        }
    }

    /// Renders the human-readable line.
    pub fn message(&self) -> (m: String)
        ensures
            m@ == self.spec_message(),
    {
        match self {
            GatewayError::Usage => "Usage: aorus-helper <command> [args...]".to_owned(),
            GatewayError::UsageRead => "Usage: aorus-helper read <attribute>".to_owned(),
            GatewayError::UsageWrite => "Usage: aorus-helper write <attribute> <value>".to_owned(),
            GatewayError::UnknownCommand(cmd) => concat_str("Unknown command: ", cmd.as_str()),
            GatewayError::NotAllowed(attr) => {
                let mut m = concat_str("Attribute '", attr.as_str());
                append_str(&mut m, "' not allowed");
                m
            },
            GatewayError::Domain(d) => d.message().to_owned(),
            GatewayError::ReadFailed(attr, detail) => {
                let mut m = concat_str("Failed to read ", attr.as_str());
                append_str(&mut m, ": ");
                append_str(&mut m, detail.as_str());
                m
            },
            GatewayError::WriteFailed(value, attr, detail) => {
                let mut m = concat_str("Failed to write ", value.as_str());
                append_str(&mut m, " to ");
                append_str(&mut m, attr.as_str());
                append_str(&mut m, ": ");
                append_str(&mut m, detail.as_str());
                m
            },
            GatewayError::CheckFailed(detail) => concat_str(
                "Permission check failed: ",
                detail.as_str(),
            ),
        }
    }
}

} // verus!
