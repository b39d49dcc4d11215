//! The attribute registry: the closed allow-list of control-file names.
//!
//! Membership is exact, character for character. A name is later joined
//! onto a fixed base directory by the privileged shell, so the registry is
//! the sole defense against path traversal: anything not byte-for-byte
//! equal to a registry name — a different case, a trailing character, a
//! path separator — is rejected here, and the proof
//! [`lemma_allowed_names_are_plain`] shows no registry name can carry a
//! separator or a dot in the first place.

use vstd::prelude::*;
use crate::errors::GatewayError;
use crate::text::str_eq;

verus! {

/// Exact membership in the fixed allow-list.
pub open spec fn is_allowed_spec(s: Seq<char>) -> bool {
    ||| s == "fan_mode"@
    ||| s == "fan_custom_speed"@
    ||| s == "charge_mode"@
    ||| s == "charge_limit"@
    ||| s == "gpu_boost"@
    ||| s == "usb_charge_s3_toggle"@
    ||| s == "usb_charge_s4_toggle"@
    ||| s == "battery_cycle"@
    ||| s == "fan_curve_index"@
    ||| s == "fan_curve_data"@
}

/// Decides membership in the allow-list: true exactly for the fixed
/// registry names, false for every other string.
pub fn is_allowed(name: &str) -> (b: bool)
    ensures
        b == is_allowed_spec(name@),
{
    str_eq(name, "fan_mode") || str_eq(name, "fan_custom_speed") || str_eq(name, "charge_mode")
        || str_eq(name, "charge_limit") || str_eq(name, "gpu_boost") || str_eq(
        name,
        "usb_charge_s3_toggle",
    ) || str_eq(name, "usb_charge_s4_toggle") || str_eq(name, "battery_cycle") || str_eq(
        name,
        "fan_curve_index",
    ) || str_eq(name, "fan_curve_data")
}

/// Accepts an attribute exactly when it is in the registry; any other
/// name — path traversal included — is refused before any file is named.
pub fn validate_attribute(attr: &str) -> (r: Result<(), GatewayError>)
    ensures
        r is Ok <==> is_allowed_spec(attr@),
        r matches Err(e) ==> (e matches GatewayError::NotAllowed(a) && a@ == attr@),
        r matches Err(e) ==> e.spec_message() == "Attribute '"@ + attr@ + "' not allowed"@,
{
    if is_allowed(attr) {
        Ok(())
    } else {
        Err(GatewayError::NotAllowed(attr.to_owned()))
    }
}

/// Every registry name is made of lower-case letters, digits and
/// underscores alone: no path separator, no dot, so no allowed name can
/// escape the base directory or name a hidden or relative path.
pub proof fn lemma_allowed_names_are_plain(s: Seq<char>)
    requires
        is_allowed_spec(s),
    ensures
        forall|i: int|
            0 <= i < s.len() ==> (('a' <= #[trigger] s[i] && s[i] <= 'z') || ('0' <= s[i] && s[i]
                <= '9') || s[i] == '_'),
{
    reveal_strlit("fan_mode");
    reveal_strlit("fan_custom_speed");
    reveal_strlit("charge_mode");
    reveal_strlit("charge_limit");
    reveal_strlit("gpu_boost");
    reveal_strlit("usb_charge_s3_toggle");
    reveal_strlit("usb_charge_s4_toggle");
    reveal_strlit("battery_cycle");
    reveal_strlit("fan_curve_index");
    reveal_strlit("fan_curve_data");
}

} // verus!
