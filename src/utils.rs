//! Small conversions shared by the alphabets.
use vstd::prelude::*;

use crate::errors::{read_error, SeqError, SeqErrorKind};

verus! {

/// Narrows a character to a byte, failing on characters beyond one byte.
pub fn char_to_byte(c: &char) -> (r: Result<u8, SeqError>)
    ensures
        (*c as u32) <= 255 ==> r == Ok::<u8, SeqError>(*c as u8),
        (*c as u32) > 255 ==> r == Err::<u8, SeqError>(read_error(*c)),
{
    let code: u32 = *c as u32;
    if code <= 255 {
        Ok(code as u8)
    } else {
        Err(SeqError::new(SeqErrorKind::AlphabetReadError { base: *c }))
    }
}

} // verus!
