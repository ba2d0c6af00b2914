//! Named values of the prefix field.
use vstd::prelude::*;

verus! {

/// The prefix of an identifier whose data has not been classified; a
/// generator falls back to it after each identifier it hands out.
pub const UNCATEGORIZED_DATA: u16 = 0x0000;

} // verus!
