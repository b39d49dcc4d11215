//! The command dispatcher's decision stage.
//!
//! One invocation carries a verb — `read`, `write` or `check` — and its
//! arguments. [`plan`] turns the argument vector into either the single
//! validated action the invocation may perform, or the error that ends it.
//! Validation strictly precedes any action: an action naming an attribute
//! exists only for a registry name, and a write action only for a value
//! inside the attribute's domain, so the accessor behind the plan can
//! never be reached with a rejected name or value.

use vstd::prelude::*;
use crate::errors::GatewayError;
use crate::registry::{is_allowed_spec, validate_attribute};
use crate::text::str_eq;
use crate::validate::{domain_error_of, validate_value, value_ok};

verus! {

/// The one filesystem action an accepted invocation performs.
#[derive(Clone, Debug)]
pub enum Action {
    /// Read the named attribute and report its trimmed content.
    Read(String),
    /// Write the value to the named attribute.
    Write(String, String),
    /// Probe the canonical attribute for read permission.
    Check,
}

/// Parses and validates an argument vector (the program name first, as
/// handed to the process) into the action it is allowed to perform.
///
/// Every returned action has passed the registry, and a write also its
/// value domain: rejection at any stage yields the stage's error and no
/// action, so nothing downstream ever touches a file for a rejected
/// invocation.
pub fn plan(args: &Vec<String>) -> (r: Result<Action, GatewayError>)
    ensures
        // what each argument shape yields
        args@.len() < 2 ==> r == Err::<Action, GatewayError>(GatewayError::Usage),
        args@.len() == 2 && args@[1]@ == "read"@ ==> r == Err::<Action, GatewayError>(
            GatewayError::UsageRead,
        ),
        args@.len() >= 3 && args@[1]@ == "read"@ && is_allowed_spec(args@[2]@) ==> (r matches Ok(
            a,
        ) && a matches Action::Read(att) && att@ == args@[2]@),
        args@.len() >= 3 && args@[1]@ == "read"@ && !is_allowed_spec(args@[2]@) ==> (r matches Err(
            e,
        ) && e matches GatewayError::NotAllowed(att) && att@ == args@[2]@),
        args@.len() >= 2 && args@[1]@ == "write"@ && args@.len() < 4 ==> r == Err::<
            Action,
            GatewayError,
        >(GatewayError::UsageWrite),
        args@.len() >= 4 && args@[1]@ == "write"@ && !is_allowed_spec(args@[2]@) ==> (r matches Err(
            e,
        ) && e matches GatewayError::NotAllowed(att) && att@ == args@[2]@),
        args@.len() >= 4 && args@[1]@ == "write"@ && is_allowed_spec(args@[2]@) && !value_ok(
            args@[2]@,
            args@[3]@,
        ) ==> (r matches Err(e) && e matches GatewayError::Domain(d) && domain_error_of(args@[2]@)
            == Some(d)),
        args@.len() >= 4 && args@[1]@ == "write"@ && is_allowed_spec(args@[2]@) && value_ok(
            args@[2]@,
            args@[3]@,
        ) ==> (r matches Ok(a) && a matches Action::Write(att, v) && att@ == args@[2]@ && v@
            == args@[3]@),
        args@.len() >= 2 && args@[1]@ == "check"@ ==> r == Ok::<Action, GatewayError>(
            Action::Check,
        ),
        args@.len() >= 2 && args@[1]@ != "read"@ && args@[1]@ != "write"@ && args@[1]@ != "check"@
            ==> (r matches Err(e) && e matches GatewayError::UnknownCommand(c) && c@ == args@[1]@),
        // validation precedes action: an action is only ever validated
        r matches Ok(a) ==> (a matches Action::Read(att) ==> is_allowed_spec(att@)),
        r matches Ok(a) ==> (a matches Action::Write(att, v) ==> is_allowed_spec(att@) && value_ok(
            att@,
            v@,
        )),
{
    proof {
        reveal_strlit("read");
        reveal_strlit("write");
        reveal_strlit("check");
        assert("read"@.len() == 4 && "write"@.len() == 5 && "check"@.len() == 5);
        assert("write"@[0] != "check"@[0]);
        assert("read"@ != "write"@ && "read"@ != "check"@ && "write"@ != "check"@);
    }
    if args.len() < 2 {
        return Err(GatewayError::Usage);
    }
    let verb = args[1].as_str();
    if str_eq(verb, "read") {
        if args.len() < 3 {
            Err(GatewayError::UsageRead)
        } else {
            let attr = args[2].as_str();
            match validate_attribute(attr) {
                Ok(()) => Ok(Action::Read(attr.to_owned())),
                Err(e) => Err(e),
            }
        }
    } else if str_eq(verb, "write") {
        if args.len() < 4 {
            Err(GatewayError::UsageWrite)
        } else {
            let attr = args[2].as_str();
            let value = args[3].as_str();
            match validate_attribute(attr) {
                Ok(()) => match validate_value(attr, value) {
                    Ok(()) => Ok(Action::Write(attr.to_owned(), value.to_owned())),
                    Err(e) => Err(e),
                },
                Err(e) => Err(e),
            }
        }
    } else if str_eq(verb, "check") {
        Ok(Action::Check)
    } else {
        Err(GatewayError::UnknownCommand(verb.to_owned()))
    }
}

} // verus!
