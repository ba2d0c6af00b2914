//! Compact, sortable 128-bit identifiers that pack a classification prefix,
//! a layout version, a device id, a microsecond timestamp and random bits.
use vstd::prelude::*;

pub mod generator;
pub mod hex;
pub mod layout;
pub mod prefix;
pub mod ruid;

pub use generator::RuidGenerator;
pub use ruid::{ParseRuidError, Ruid};

verus! {

} // verus!
