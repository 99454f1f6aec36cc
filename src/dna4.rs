//! The four concrete nucleotides, without ambiguity codes.
use vstd::prelude::*;

use crate::alphabet::Alphabet;
use crate::charcase::{spec_to_upper, to_upper};
use crate::complement::Complement;
use crate::convert::{FromChar, IntoChar};
use crate::dna::DNA;
use crate::errors::{SeqError, SeqErrorKind};
use crate::matcher::{Match, RedundantAlphabet};

verus! {

/// A concrete base; the ranks 0 to 3 follow the order A, C, G, T.
#[derive(Debug, PartialEq, Eq, PartialOrd, Ord, Copy, Clone, Hash, Structural)]
pub enum DNA4 {
    A,
    C,
    G,
    T,
}

impl DNA4 {
    pub open spec fn index(self) -> nat {
        match self {
            DNA4::A => 0,
            DNA4::C => 1,
            DNA4::G => 2,
            DNA4::T => 3,
        }
    }

    /// The redundant-alphabet symbol of the same base.
    pub open spec fn spec_to_dna(self) -> DNA {
        match self {
            DNA4::A => DNA::A,
            DNA4::C => DNA::C,
            DNA4::G => DNA::G,
            DNA4::T => DNA::T,
        }
    }

    /// The same base in the redundant alphabet.
    pub fn to_dna(&self) -> (r: DNA)
        ensures
            r == self.spec_to_dna(),
    {
        match self {
            DNA4::A => DNA::A,
            DNA4::C => DNA::C,
            DNA4::G => DNA::G,
            DNA4::T => DNA::T,
        }
    }

    /// Narrows a redundant-alphabet symbol to its concrete base; a symbol that
    /// stands for more than one base is refused.
    pub fn try_from_dna(base: &DNA) -> (r: Result<DNA4, SeqError>)
        ensures
            match r {
                Ok(b) => b.spec_to_dna() == *base,
                Err(e) => base.spec_is_redundant() && e == SeqError {
                    inner: SeqErrorKind::RedundantAlphabetConversionError {
                        base: base.spec_byte() as char,
                    },
                },
            },
            base.spec_is_redundant() <==> r.is_err(),
    {
        match base {
            DNA::A => Ok(DNA4::A),
            DNA::C => Ok(DNA4::C),
            DNA::G => Ok(DNA4::G),
            DNA::T => Ok(DNA4::T),
            _ => Err(
                SeqError::new(
                    SeqErrorKind::RedundantAlphabetConversionError { base: base.into_char() },
                ),
            ),
        }
    }
}

impl Alphabet for DNA4 {
    open spec fn spec_cardinality() -> nat {
        4
    }

    open spec fn spec_rank(&self) -> nat {
        self.index()
    }

    open spec fn spec_from_rank(r: nat) -> DNA4 {
        if r == 0 {
            DNA4::A
        } else if r == 1 {
            DNA4::C
        } else if r == 2 {
            DNA4::G
        } else {
            DNA4::T
        }
    }

    proof fn lemma_rank_bounds(&self) {
    }

    proof fn lemma_from_rank(r: nat) {
    }

    fn cardinality() -> (r: usize) {
        4
    }

    fn rank(&self) -> (r: usize) {
        match self {
            DNA4::A => 0,
            DNA4::C => 1,
            DNA4::G => 2,
            DNA4::T => 3,
        }
    }

    fn from_rank(r: usize) -> (res: Option<DNA4>) {
        match r {
            0 => Some(DNA4::A),
            1 => Some(DNA4::C),
            2 => Some(DNA4::G),
            3 => Some(DNA4::T),
            _ => None,
        }
    }

    fn variants() -> (v: Vec<DNA4>) {
        vec![DNA4::A, DNA4::C, DNA4::G, DNA4::T]
    }
}

impl IntoChar for DNA4 {
    open spec fn spec_byte(&self) -> u8 {
        match self {
            DNA4::A => 65,
            DNA4::C => 67,
            DNA4::G => 71,
            DNA4::T => 84,
        }
    }

    proof fn lemma_byte_is_upper(&self) {
    }

    proof fn lemma_byte_injective(&self, other: &Self) {
    }

    fn into_byte(&self) -> (r: u8) {
        match self {
            DNA4::A => 65,
            DNA4::C => 67,
            DNA4::G => 71,
            DNA4::T => 84,
        }
    }
}

impl FromChar for DNA4 {
    fn from_byte(b: u8) -> (r: Result<DNA4, SeqError>) {
        let r = match to_upper(b) {
            65 => Ok(DNA4::A),
            67 => Ok(DNA4::C),
            71 => Ok(DNA4::G),
            84 => Ok(DNA4::T),
            _ => Err(SeqError::new(SeqErrorKind::AlphabetReadError { base: b as char })),
        };
        proof {
            if let Ok(s) = r {
                assert(s.spec_byte() == spec_to_upper(b));
                let c = choose|c: DNA4| #[trigger] c.spec_byte() == spec_to_upper(b);
                s.lemma_byte_injective(&c);
            }
        }
        r
    }
}

impl Complement for DNA4 {
    open spec fn spec_complement(&self) -> DNA4 {
        match self {
            DNA4::A => DNA4::T,
            DNA4::C => DNA4::G,
            DNA4::G => DNA4::C,
            DNA4::T => DNA4::A,
        }
    }

    fn complement(&self) -> (r: DNA4) {
        match self {
            DNA4::A => DNA4::T,
            DNA4::C => DNA4::G,
            DNA4::G => DNA4::C,
            DNA4::T => DNA4::A,
        }
    }
}

impl Match<DNA4> for DNA4 {
    open spec fn spec_matches(&self, other: &DNA4) -> bool {
        *self == *other
    }

    fn matches(&self, other: &DNA4) -> (r: bool) {
        *self == *other
    }
}

/// Complementing a concrete base twice gives it back.
pub proof fn lemma_dna4_complement_involution(a: DNA4)
    ensures
        a.spec_complement().spec_complement() == a,
        a.spec_complement().spec_to_dna() == a.spec_to_dna().spec_complement(),
{
}

impl From<DNA4> for DNA {
    fn from(base: DNA4) -> (r: DNA) {
        base.to_dna()
    }
}

impl vstd::std_specs::convert::FromSpecImpl<DNA4> for DNA {
    open spec fn obeys_from_spec() -> bool {
        true
    }

    open spec fn from_spec(base: DNA4) -> DNA {
        base.spec_to_dna()
    }
}

} // verus!
