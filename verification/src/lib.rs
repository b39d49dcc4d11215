//! A verified privileged attribute gateway for laptop hardware controls.
//!
//! The gateway is the sole elevated-privilege path to a fixed set of
//! hardware-control files. Its defense is entirely in software: a closed
//! allow-list of attribute names, a per-attribute value-domain validator,
//! and a dispatcher that refuses to touch any file before both checks pass.
//! Every one of those rules is stated as a contract and proved here.
//!
//! The privileged binary itself (argument handling and the actual file
//! reads and writes) is a thin unverified shell over this library; the
//! in-memory accessor in [`accessor`] is the verified model of the file
//! directory against which the dispatcher's ordering and idempotence
//! guarantees are proved and tested.

pub mod accessor;
pub mod chars;
pub mod parse;
pub mod command;
pub mod curve;
pub mod errors;
pub mod gateway;
pub mod info;
pub mod registry;
pub mod text;
pub mod validate;
