//! The identifier value and its text form.
use vstd::prelude::*;
use crate::hex::{all_hex_digits, hex_text, hex_value, lemma_hex_text_u128, parse_hex, push_hex};
use crate::layout::{below_prefix, prefix_of, PREFIX_SHIFT};

verus! {

/// A 128-bit identifier; see `layout` for the fields it packs.
#[derive(Debug, Clone, Copy, PartialEq, Eq, Structural)]
pub struct Ruid {
    id: u128,
}

impl View for Ruid {
    type V = u128;

    closed spec fn view(&self) -> u128 {
        self.id
    }
}

/// Why a text is not an identifier.
#[derive(Debug, Clone, Copy, PartialEq, Eq, Structural)]
pub enum ParseRuidError {
    /// The text is not 32 characters long.
    InvalidLength,
    /// The text has 32 characters, not all of them hex digits.
    InvalidFormat,
}

/// The canonical text of the raw value `v`: 32 lowercase hex digits.
pub open spec fn ruid_text(v: u128) -> Seq<char> {
    hex_text(v as nat, 32)
}

/// What reading `s` as an identifier gives: its raw value, or the error.
pub open spec fn parse_ruid_text(s: Seq<char>) -> Result<u128, ParseRuidError> {
    if s.len() != 32 {
        Err(ParseRuidError::InvalidLength)
    } else if !all_hex_digits(s) {
        Err(ParseRuidError::InvalidFormat)
    } else {
        Ok(hex_value(s) as u128)
    }
}

/// Reading back the canonical text of any raw value gives that value.
pub proof fn lemma_text_round_trip(v: u128)
    ensures
        parse_ruid_text(ruid_text(v)) == Ok::<u128, ParseRuidError>(v),
{
    lemma_hex_text_u128(v);
}

impl Ruid {
    /// The canonical text: 32 lowercase hex digits, zero-padded.
    pub fn to_string(&self) -> (r: String)
        ensures
            r@ == ruid_text(self@),
    {
        let mut s = String::new();
        push_hex(&mut s, self.id, 32);
        assert(s@ =~= ruid_text(self@));
        s
    }

    pub fn to_u128(&self) -> (r: u128)
        ensures
            r == self@,
    {
        self.id
    }

    /// A new identifier with the prefix field replaced and every other bit
    /// kept.
    pub fn edit_prefix(&self, prefix: u16) -> (r: Ruid)
        ensures
            r@ == below_prefix(self@) | ((prefix as u128) << 112u128),
            prefix_of(r@) == prefix,
            below_prefix(r@) == below_prefix(self@),
    {
        let id = (self.id & !(0xFFFFu128 << PREFIX_SHIFT)) | ((prefix as u128) << PREFIX_SHIFT);
        let old_id = self.id;
        assert(id == below_prefix(old_id) | ((prefix as u128) << 112u128)) by (bit_vector)
            requires
                id == (old_id & !(0xFFFFu128 << 112u32)) | ((prefix as u128) << 112u32),
        ;
        assert(prefix_of(id) == prefix && below_prefix(id) == below_prefix(old_id))
            by (bit_vector)
            requires
                id == below_prefix(old_id) | ((prefix as u128) << 112u128),
        ;
        Ruid { id }
    }

    /// Wraps any raw value as it is.
    pub fn from_u128(id: u128) -> (r: Self)
        ensures
            r@ == id,
    {
        Ruid { id }
    }

    /// Reads 32 hex digits, in either case, as a big-endian raw value.
    pub fn from_str(s: &str) -> (r: Result<Self, ParseRuidError>)
        ensures
            r.is_ok() == parse_ruid_text(s@) is Ok,
            r matches Ok(x) ==> parse_ruid_text(s@) == Ok::<u128, ParseRuidError>(x@),
            r matches Err(e) ==> parse_ruid_text(s@) == Err::<u128, ParseRuidError>(e),
    {
        if s.unicode_len() != 32 {
            return Err(ParseRuidError::InvalidLength);
        }
        match parse_hex(s) {
            Some(id) => Ok(Ruid { id }),
            None => Err(ParseRuidError::InvalidFormat),
        }
    }
}

} // verus!
