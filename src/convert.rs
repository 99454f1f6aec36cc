//! Reading and writing symbols as bytes and characters.
use vstd::prelude::*;

use crate::charcase::{spec_to_lower, spec_to_upper};
use crate::errors::{read_error, SeqError};
use crate::utils::char_to_byte;

verus! {

/// What reading byte `b` gives in an alphabet whose symbols are written as
/// `spec_byte`: the symbol written with the upper-case form of `b`, if any.
pub open spec fn spec_parse<T: IntoChar>(b: u8) -> Result<T, SeqError> {
    if exists|s: T| #[trigger] s.spec_byte() == spec_to_upper(b) {
        Ok(choose|s: T| #[trigger] s.spec_byte() == spec_to_upper(b))
    } else {
        Err(read_error(b as char))
    }
}

/// What reading character `c` gives: characters beyond one byte are refused.
pub open spec fn spec_parse_char<T: IntoChar>(c: char) -> Result<T, SeqError> {
    if (c as u32) <= 255 {
        spec_parse::<T>(c as u8)
    } else {
        Err(read_error(c))
    }
}

/// Symbols written as a single upper-case ASCII letter, each with its own.
pub trait IntoChar: Sized {
    spec fn spec_byte(&self) -> u8;

    proof fn lemma_byte_is_upper(&self)
        ensures
            65 <= self.spec_byte() <= 90,
    ;

    proof fn lemma_byte_injective(&self, other: &Self)
        ensures
            self.spec_byte() == other.spec_byte() ==> *self == *other,
    ;

    /// The letter of the symbol.
    fn into_byte(&self) -> (r: u8)
        ensures
            r == self.spec_byte(),
    ;

    /// The letter of the symbol, as a character.
    fn into_char(&self) -> (r: char)
        ensures
            r == self.spec_byte() as char,
    {
        self.into_byte() as char
    }
}

/// Symbols that can be read back from their letter, in either case.
pub trait FromChar: IntoChar {
    /// Reads a symbol from a byte, ignoring ASCII case.
    fn from_byte(b: u8) -> (r: Result<Self, SeqError>)
        ensures
            r == spec_parse::<Self>(b),
    ;

    /// Reads a symbol from a character, ignoring ASCII case.
    fn from_char(c: char) -> (r: Result<Self, SeqError>)
        ensures
            r == spec_parse_char::<Self>(c),
    {
        match char_to_byte(&c) {
            Ok(b) => Self::from_byte(b),
            Err(e) => Err(e),
        }
    }
}

/// Reading the letter of a symbol gives the symbol back, whether the letter is
/// read in upper or in lower case, as a byte or as a character.
pub proof fn lemma_parse_format<T: IntoChar>(s: T)
    ensures
        spec_parse::<T>(s.spec_byte()) == Ok::<T, SeqError>(s),
        spec_parse::<T>(spec_to_lower(s.spec_byte())) == Ok::<T, SeqError>(s),
        spec_parse_char::<T>(s.spec_byte() as char) == Ok::<T, SeqError>(s),
        spec_parse_char::<T>(spec_to_lower(s.spec_byte()) as char) == Ok::<T, SeqError>(s),
{
    let b = s.spec_byte();
    s.lemma_byte_is_upper();
    assert(spec_to_upper(b) == b);
    assert(spec_to_upper(spec_to_lower(b)) == b);
    let c = choose|c: T| #[trigger] c.spec_byte() == spec_to_upper(b);
    s.lemma_byte_injective(&c);
}

} // verus!
