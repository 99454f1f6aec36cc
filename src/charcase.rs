//! ASCII letter case on bytes.
use vstd::prelude::*;

verus! {

pub open spec fn spec_is_lower(c: u8) -> bool {
    97 <= c <= 122
}

pub open spec fn spec_is_upper(c: u8) -> bool {
    65 <= c <= 90
}

pub open spec fn spec_to_upper(c: u8) -> u8 {
    if spec_is_lower(c) {
        (c - 32) as u8
    } else {
        c
    }
}

pub open spec fn spec_to_lower(c: u8) -> u8 {
    if spec_is_upper(c) {
        (c + 32) as u8
    } else {
        c
    }
}

/// Is `c` an ASCII lower-case letter?
pub fn is_lower(c: u8) -> (r: bool)
    ensures
        r == spec_is_lower(c),
{
    c > 96 && c < 123
}

/// Is `c` an ASCII upper-case letter?
pub fn is_upper(c: u8) -> (r: bool)
    ensures
        r == spec_is_upper(c),
{
    c > 64 && c < 91
}

/// The upper-case form of an ASCII letter; any other byte is returned as it is.
pub fn to_upper(c: u8) -> (r: u8)
    ensures
        r == spec_to_upper(c),
{
    if is_lower(c) {
        c - 32
    } else {
        c
    }
}

/// The lower-case form of an ASCII letter; any other byte is returned as it is.
pub fn to_lower(c: u8) -> (r: u8)
    ensures
        r == spec_to_lower(c),
{
    if is_upper(c) {
        c + 32
    } else {
        c
    }
}

} // verus!
