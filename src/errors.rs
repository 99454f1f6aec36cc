//! The errors raised while reading symbols and building codons.
use vstd::prelude::*;

verus! {

/// What went wrong.
#[derive(Debug, Clone, Copy, PartialEq, Eq, Structural)]
pub enum SeqErrorKind {
    /// A character that names no symbol of the alphabet being read.
    AlphabetReadError { base: char },
    /// Fewer than three symbols were available to build a codon.
    CodonFromStrTooShort,
    /// A redundant nucleotide cannot be narrowed to a single concrete base.
    RedundantAlphabetConversionError { base: char },
}

/// The error type of the library.
#[derive(Debug, Clone, Copy, PartialEq, Eq, Structural)]
pub struct SeqError {
    pub inner: SeqErrorKind,
}

impl SeqError {
    pub fn new(kind: SeqErrorKind) -> (r: SeqError)
        ensures
            r.inner == kind,
    {
        SeqError { inner: kind }
    }

    /// The kind of this error.
    pub fn kind(&self) -> (r: &SeqErrorKind)
        ensures
            *r == self.inner,
    {
        &self.inner
    }
}

impl From<SeqErrorKind> for SeqError {
    fn from(kind: SeqErrorKind) -> (r: SeqError) {
        SeqError { inner: kind }
    }
}

impl vstd::std_specs::convert::FromSpecImpl<SeqErrorKind> for SeqError {
    open spec fn obeys_from_spec() -> bool {
        true
    }

    open spec fn from_spec(kind: SeqErrorKind) -> SeqError {
        SeqError { inner: kind }
    }
}

/// The error for a character that no symbol of the alphabet is written with.
pub open spec fn read_error(base: char) -> SeqError {
    SeqError { inner: SeqErrorKind::AlphabetReadError { base } }
}

} // verus!
