//! The gateway's full behaviour over the accessor model.
//!
//! [`dispatch_spec`] is the denotation of one invocation: from the
//! argument vector and the store, the outcome (the line printed on
//! success, or the error line) and the store afterwards. The executable
//! dispatcher is proved to follow it exactly, and the ordering and
//! idempotence guarantees of the design are lemmas about it: validation
//! strictly precedes any access, an erring invocation leaves the store
//! as it was, and a read never changes it.

use vstd::prelude::*;
use crate::accessor::{lookup, MemAccessor};
use crate::command::{plan, Action};
use crate::errors::GatewayError;
use crate::registry::{is_allowed_spec, validate_attribute};
use crate::text::{trim_spec, trim_str};
use crate::validate::{domain_error_of, value_ok};

verus! {

/// The error line a rejected attribute produces.
pub open spec fn not_allowed_msg(attr: Seq<char>) -> Seq<char> {
    "Attribute '"@ + attr + "' not allowed"@
}

/// The error line a rejected write value produces: the violated domain's
/// own diagnostic.
pub open spec fn domain_msg(attr: Seq<char>) -> Seq<char> {
    match domain_error_of(attr) {
        Some(d) => d.spec_message(),
        None => Seq::empty(),
    }
}

/// The error line of a read of an attribute the store does not hold.
pub open spec fn read_failed_msg(attr: Seq<char>) -> Seq<char> {
    "Failed to read "@ + attr + ": "@ + "attribute not present"@
}

/// The error line of a failed permission probe.
pub open spec fn check_failed_msg() -> Seq<char> {
    "Permission check failed: "@ + "fan_mode not readable"@
}

/// What `read attr` yields: the registry decides first, and only for an
/// allowed name is the store consulted; the reported content is trimmed.
pub open spec fn read_spec(attr: Seq<char>, store: Seq<(Seq<char>, Seq<char>)>) -> (Result<
    Seq<char>,
    Seq<char>,
>, Seq<(Seq<char>, Seq<char>)>) {
    if !is_allowed_spec(attr) {
        (Err(not_allowed_msg(attr)), store)
    } else {
        match lookup(store, attr) {
            Some(c) => (Ok(trim_spec(c)), store),
            None => (Err(read_failed_msg(attr)), store),
        }
    }
}

/// What `write attr value` yields: registry first, then the value
/// domain, and only when both accept is the store changed — by exactly
/// the one entry written.
pub open spec fn write_spec(attr: Seq<char>, value: Seq<char>, store: Seq<(Seq<char>, Seq<char>)>)
    -> (Result<Seq<char>, Seq<char>>, Seq<(Seq<char>, Seq<char>)>) {
    if !is_allowed_spec(attr) {
        (Err(not_allowed_msg(attr)), store)
    } else if !value_ok(attr, value) {
        (Err(domain_msg(attr)), store)
    } else {
        (Ok(Seq::empty()), store.push((attr, value)))
    }
}

/// What `check` yields: the canonical probe attribute must be readable;
/// its content is discarded.
pub open spec fn check_spec(store: Seq<(Seq<char>, Seq<char>)>) -> (Result<Seq<char>, Seq<char>>,
    Seq<(Seq<char>, Seq<char>)>) {
    match lookup(store, "fan_mode"@) {
        Some(c) => (Ok("ok"@), store),
        None => (Err(check_failed_msg()), store),
    }
}

/// The denotation of one gateway invocation: from the argument vector
/// (program name first) and the store, the outcome and the store after.
pub open spec fn dispatch_spec(args: Seq<Seq<char>>, store: Seq<(Seq<char>, Seq<char>)>) -> (
    Result<Seq<char>, Seq<char>>,
    Seq<(Seq<char>, Seq<char>)>,
) {
    if args.len() < 2 {
        (Err("Usage: aorus-helper <command> [args...]"@), store)
    } else if args[1] == "read"@ {
        if args.len() < 3 {
            (Err("Usage: aorus-helper read <attribute>"@), store)
        } else {
            read_spec(args[2], store)
        }
    } else if args[1] == "write"@ {
        if args.len() < 4 {
            (Err("Usage: aorus-helper write <attribute> <value>"@), store)
        } else {
            write_spec(args[2], args[3], store)
        }
    } else if args[1] == "check"@ {
        check_spec(store)
    } else {
        (Err("Unknown command: "@ + args[1]), store)
    }
}

/// The outcome a caller observes, stripped to its external contract:
/// the printed line on success, the error line on failure.
pub open spec fn outcome_view(r: Result<String, GatewayError>) -> Result<Seq<char>, Seq<char>> {
    match r {
        Ok(s) => Ok(s@),
        Err(e) => Err(e.spec_message()),
    }
}

/// Reads an attribute: registry check, then the store, then trimming.
pub fn read_attribute(acc: &MemAccessor, attr: &str) -> (r: Result<String, GatewayError>)
    ensures
        outcome_view(r) == read_spec(attr@, acc@).0,
{
    match validate_attribute(attr) {
        Ok(()) => (),
        Err(e) => {
            return Err(e);
        },
    }
    match acc.read(attr) {
        Some(content) => Ok(trim_str(content.as_str())),
        None => Err(
            GatewayError::ReadFailed(attr.to_owned(), "attribute not present".to_owned()),
        ),
    }
}

/// Writes an attribute: registry check, then the value domain, and only
/// then the store; a rejected write changes nothing.
pub fn write_attribute(acc: &mut MemAccessor, attr: &str, value: &str) -> (r: Result<
    String,
    GatewayError,
>)
    ensures
        outcome_view(r) == write_spec(attr@, value@, old(acc)@).0,
        final(acc)@ == write_spec(attr@, value@, old(acc)@).1,
{
    match validate_attribute(attr) {
        Ok(()) => (),
        Err(e) => {
            return Err(e);
        },
    }
    match crate::validate::validate_value(attr, value) {
        Ok(()) => (),
        Err(e) => {
            return Err(e);
        },
    }
    acc.write(attr, value);
    let out = String::new();
    Ok(out)
}

/// Probes the canonical attribute for readability.
pub fn check_permissions(acc: &MemAccessor) -> (r: Result<String, GatewayError>)
    ensures
        outcome_view(r) == check_spec(acc@).0,
{
    match acc.read("fan_mode") {
        Some(_) => Ok("ok".to_owned()),
        None => Err(GatewayError::CheckFailed("fan_mode not readable".to_owned())),
    }
}

/// Runs one invocation against the store: plans the action, performs it,
/// and reports the outcome — exactly as [`dispatch_spec`] denotes it.
pub fn dispatch(args: &Vec<String>, acc: &mut MemAccessor) -> (r: Result<String, GatewayError>)
    ensures
        outcome_view(r) == dispatch_spec(args.deep_view(), old(acc)@).0,
        final(acc)@ == dispatch_spec(args.deep_view(), old(acc)@).1,
{
    match plan(args) {
        Err(e) => Err(e),
        Ok(Action::Read(attr)) => read_attribute(acc, attr.as_str()),
        Ok(Action::Write(attr, value)) => write_attribute(acc, attr.as_str(), value.as_str()),
        Ok(Action::Check) => check_permissions(acc),
    }
}

/// Validation precedes access: an invocation naming a rejected attribute
/// errs and leaves the store exactly as it was — no accessor entry point
/// is ever reached for it.
pub proof fn lemma_rejected_attribute_touches_nothing(
    args: Seq<Seq<char>>,
    store: Seq<(Seq<char>, Seq<char>)>,
)
    requires
        args.len() >= 3,
        args[1] == "read"@ || args[1] == "write"@,
        !is_allowed_spec(args[2]),
    ensures
        dispatch_spec(args, store).0 is Err,
        dispatch_spec(args, store).1 == store,
{
    reveal_strlit("read");
    reveal_strlit("write");
    assert("read"@.len() == 4 && "write"@.len() == 5);
}

/// An accepted write succeeds, reads back as the trimmed value it
/// wrote, and leaves every other attribute exactly as it was.
pub proof fn lemma_accepted_write_reads_back(
    attr: Seq<char>,
    value: Seq<char>,
    other: Seq<char>,
    store: Seq<(Seq<char>, Seq<char>)>,
)
    requires
        is_allowed_spec(attr),
        value_ok(attr, value),
    ensures
        write_spec(attr, value, store).0 is Ok,
        read_spec(attr, write_spec(attr, value, store).1).0 == Ok::<Seq<char>, Seq<char>>(
            trim_spec(value),
        ),
        other != attr && is_allowed_spec(other) ==> read_spec(
            other,
            write_spec(attr, value, store).1,
        ).0 == read_spec(other, store).0,
{
    let pushed = store.push((attr, value));
    assert(pushed.last() == (attr, value));
    assert(pushed.drop_last() =~= store);
}

/// An erring invocation changes nothing: whatever failed — usage,
/// validation or the store itself — the store after is the store before.
pub proof fn lemma_error_leaves_store(args: Seq<Seq<char>>, store: Seq<(Seq<char>, Seq<char>)>)
    ensures
        dispatch_spec(args, store).0 is Err ==> dispatch_spec(args, store).1 == store,
{
}

/// Reading is idempotent: a read never changes the store, and a second
/// read of the same attribute with no intervening write reports the
/// same outcome.
pub proof fn lemma_read_idempotent(args: Seq<Seq<char>>, store: Seq<(Seq<char>, Seq<char>)>)
    requires
        args.len() >= 2,
        args[1] == "read"@,
    ensures
        dispatch_spec(args, store).1 == store,
        dispatch_spec(args, dispatch_spec(args, store).1).0 == dispatch_spec(args, store).0,
{
}

} // verus!
