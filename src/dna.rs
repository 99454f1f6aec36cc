//! The fully redundant IUPAC nucleotide alphabet.
//!
//! Each symbol stands for a non-empty set of the four concrete bases A, C, G
//! and T, held as a four-bit mask: bit 0 for A, bit 1 for C, bit 2 for G and
//! bit 3 for T. The symbols are declared in the order of their masks, from
//! `A` (`0b0001`) to `N` (`0b1111`), and every set operation acts on the mask.
use vstd::prelude::*;

use crate::charcase::{spec_to_upper, to_upper};
use crate::complement::Complement;
use crate::convert::{FromChar, IntoChar};
use crate::errors::{SeqError, SeqErrorKind};
use crate::matcher::{Match, RedundantAlphabet};

verus! {

#[derive(Debug, PartialEq, Eq, PartialOrd, Ord, Copy, Clone, Hash, Structural)]
pub enum DNA {
    A,
    C,
    M,
    G,
    R,
    S,
    V,
    T,
    W,
    Y,
    H,
    K,
    D,
    B,
    N,
}

/// Does a mask hold the base of a one-bit mask?
pub open spec fn has_base(mask: u8, bit: u8) -> bool {
    mask & bit != 0
}

/// The concrete bases in a mask, in the order A, C, G, T.
pub open spec fn bases_of(m: u8) -> Seq<DNA> {
    let a = if has_base(m, 1) { seq![DNA::A] } else { seq![] };
    let c = if has_base(m, 2) { seq![DNA::C] } else { seq![] };
    let g = if has_base(m, 4) { seq![DNA::G] } else { seq![] };
    let t = if has_base(m, 8) { seq![DNA::T] } else { seq![] };
    a + c + g + t
}

impl DNA {
    /// The set of concrete bases the symbol stands for, as a four-bit mask.
    pub open spec fn mask(self) -> u8 {
        match self {
            DNA::A => 1,
            DNA::C => 2,
            DNA::M => 3,
            DNA::G => 4,
            DNA::R => 5,
            DNA::S => 6,
            DNA::V => 7,
            DNA::T => 8,
            DNA::W => 9,
            DNA::Y => 10,
            DNA::H => 11,
            DNA::K => 12,
            DNA::D => 13,
            DNA::B => 14,
            DNA::N => 15,
        }
    }

    /// The symbol with a given non-zero four-bit mask.
    pub open spec fn spec_from_mask(m: u8) -> DNA {
        if m == 1 {
            DNA::A
        } else if m == 2 {
            DNA::C
        } else if m == 3 {
            DNA::M
        } else if m == 4 {
            DNA::G
        } else if m == 5 {
            DNA::R
        } else if m == 6 {
            DNA::S
        } else if m == 7 {
            DNA::V
        } else if m == 8 {
            DNA::T
        } else if m == 9 {
            DNA::W
        } else if m == 10 {
            DNA::Y
        } else if m == 11 {
            DNA::H
        } else if m == 12 {
            DNA::K
        } else if m == 13 {
            DNA::D
        } else if m == 14 {
            DNA::B
        } else {
            DNA::N
        }
    }

    /// The set of concrete bases as a mask; a symbol's mask is also its rank.
    pub fn rank(&self) -> (r: u8)
        ensures
            r == self.mask(),
            1 <= r <= 15,
    {
        match self {
            DNA::A => 1,
            DNA::C => 2,
            DNA::M => 3,
            DNA::G => 4,
            DNA::R => 5,
            DNA::S => 6,
            DNA::V => 7,
            DNA::T => 8,
            DNA::W => 9,
            DNA::Y => 10,
            DNA::H => 11,
            DNA::K => 12,
            DNA::D => 13,
            DNA::B => 14,
            DNA::N => 15,
        }
    }

    /// The symbol that stands for the bases of a non-zero four-bit mask.
    pub fn from_mask(m: u8) -> (r: DNA)
        requires
            1 <= m <= 15,
        ensures
            r == DNA::spec_from_mask(m),
            r.mask() == m,
    {
        match m {
            1 => DNA::A,
            2 => DNA::C,
            3 => DNA::M,
            4 => DNA::G,
            5 => DNA::R,
            6 => DNA::S,
            7 => DNA::V,
            8 => DNA::T,
            9 => DNA::W,
            10 => DNA::Y,
            11 => DNA::H,
            12 => DNA::K,
            13 => DNA::D,
            14 => DNA::B,
            _ => DNA::N,
        }
    }

    pub open spec fn spec_name(self) -> Seq<char> {
        match self {
            DNA::A => "Adenine"@,
            DNA::C => "Cytosine"@,
            DNA::M => "Adenine or Cytosine"@,
            DNA::G => "Guanine"@,
            DNA::R => "Adenine or Guanine"@,
            DNA::S => "Cytosine or Guanine"@,
            DNA::V => "Adenine, Cytosine, or Guanine"@,
            DNA::T => "Thymine"@,
            DNA::W => "Adenine or Thymine"@,
            DNA::Y => "Cytosine or Thymine"@,
            DNA::H => "Adenine, Cytosine, or Thymine"@,
            DNA::K => "Guanine or Thymine"@,
            DNA::D => "Adenine, Guanine, or Thymine"@,
            DNA::B => "Cytosine, Guanine, or Thymine"@,
            DNA::N => "Any nucleotide"@,
        }
    }

    /// The name of the bases the symbol stands for.
    pub fn name(&self) -> (r: String)
        ensures
            r@ == self.spec_name(),
    {
        let s = match self {
            DNA::A => "Adenine",
            DNA::C => "Cytosine",
            DNA::M => "Adenine or Cytosine",
            DNA::G => "Guanine",
            DNA::R => "Adenine or Guanine",
            DNA::S => "Cytosine or Guanine",
            DNA::V => "Adenine, Cytosine, or Guanine",
            DNA::T => "Thymine",
            DNA::W => "Adenine or Thymine",
            DNA::Y => "Cytosine or Thymine",
            DNA::H => "Adenine, Cytosine, or Thymine",
            DNA::K => "Guanine or Thymine",
            DNA::D => "Adenine, Guanine, or Thymine",
            DNA::B => "Cytosine, Guanine, or Thymine",
            DNA::N => "Any nucleotide",
        };
        String::from_str(s)
    }

    /// Every symbol, in the order of their masks.
    pub fn variants() -> (r: Vec<DNA>)
        ensures
            r@.len() == 15,
            forall|i: int| 0 <= i < 15 ==> (#[trigger] r@[i]).mask() == i + 1,
    {
        vec![
            DNA::A,
            DNA::C,
            DNA::M,
            DNA::G,
            DNA::R,
            DNA::S,
            DNA::V,
            DNA::T,
            DNA::W,
            DNA::Y,
            DNA::H,
            DNA::K,
            DNA::D,
            DNA::B,
            DNA::N,
        ]
    }

    /// The number of symbols of the alphabet.
    pub fn cardinality() -> (r: usize)
        ensures
            r == 15,
    {
        15
    }

    /// The concrete bases that a redundant symbol stands for, in the order
    /// A, C, G, T; empty for a concrete base.
    pub fn redundant_matches(&self) -> (r: Vec<DNA>)
        ensures
            self.spec_is_redundant() ==> r@ == bases_of(self.mask()),
            !self.spec_is_redundant() ==> r@.len() == 0,
    {
        let mut r: Vec<DNA> = Vec::new();
        if self.is_redundant() {
            let m = self.rank();
            if m & 1 != 0 {
                r.push(DNA::A);
            }
            if m & 2 != 0 {
                r.push(DNA::C);
            }
            if m & 4 != 0 {
                r.push(DNA::G);
            }
            if m & 8 != 0 {
                r.push(DNA::T);
            }
            assert(r@ =~= bases_of(m));
        }
        r
    }

    /// The symbol for the bases of this one with A and T swapped, and C and G.
    pub open spec fn spec_complement_of(self) -> DNA {
        match self {
            DNA::A => DNA::T,
            DNA::C => DNA::G,
            DNA::M => DNA::K,
            DNA::G => DNA::C,
            DNA::R => DNA::Y,
            DNA::S => DNA::S,
            DNA::V => DNA::B,
            DNA::T => DNA::A,
            DNA::W => DNA::W,
            DNA::Y => DNA::R,
            DNA::H => DNA::D,
            DNA::K => DNA::M,
            DNA::D => DNA::H,
            DNA::B => DNA::V,
            DNA::N => DNA::N,
        }
    }
}

impl Default for DNA {
    /// The totally ambiguous symbol, `N`.
    fn default() -> (r: DNA)
        ensures
            r == DNA::N,
    {
        DNA::N
    }
}

impl IntoChar for DNA {
    open spec fn spec_byte(&self) -> u8 {
        match self {
            DNA::A => 65,
            DNA::C => 67,
            DNA::M => 77,
            DNA::G => 71,
            DNA::R => 82,
            DNA::S => 83,
            DNA::V => 86,
            DNA::T => 84,
            DNA::W => 87,
            DNA::Y => 89,
            DNA::H => 72,
            DNA::K => 75,
            DNA::D => 68,
            DNA::B => 66,
            DNA::N => 78,
        }
    }

    proof fn lemma_byte_is_upper(&self) {
    }

    proof fn lemma_byte_injective(&self, other: &Self) {
    }

    fn into_byte(&self) -> (r: u8) {
        match self {
            DNA::A => 65,
            DNA::C => 67,
            DNA::M => 77,
            DNA::G => 71,
            DNA::R => 82,
            DNA::S => 83,
            DNA::V => 86,
            DNA::T => 84,
            DNA::W => 87,
            DNA::Y => 89,
            DNA::H => 72,
            DNA::K => 75,
            DNA::D => 68,
            DNA::B => 66,
            DNA::N => 78,
        }
    }
}

impl FromChar for DNA {
    fn from_byte(b: u8) -> (r: Result<DNA, SeqError>) {
        let r = match to_upper(b) {
            65 => Ok(DNA::A),
            67 => Ok(DNA::C),
            77 => Ok(DNA::M),
            71 => Ok(DNA::G),
            82 => Ok(DNA::R),
            83 => Ok(DNA::S),
            86 => Ok(DNA::V),
            84 => Ok(DNA::T),
            87 => Ok(DNA::W),
            89 => Ok(DNA::Y),
            72 => Ok(DNA::H),
            75 => Ok(DNA::K),
            68 => Ok(DNA::D),
            66 => Ok(DNA::B),
            78 => Ok(DNA::N),
            _ => Err(SeqError::new(SeqErrorKind::AlphabetReadError { base: b as char })),
        };
        proof {
            if let Ok(s) = r {
                assert(s.spec_byte() == spec_to_upper(b));
                let c = choose|c: DNA| #[trigger] c.spec_byte() == spec_to_upper(b);
                s.lemma_byte_injective(&c);
            }
        }
        r
    }
}

impl Complement for DNA {
    open spec fn spec_complement(&self) -> DNA {
        self.spec_complement_of()
    }

    fn complement(&self) -> (r: DNA) {
        match self {
            DNA::A => DNA::T,
            DNA::C => DNA::G,
            DNA::M => DNA::K,
            DNA::G => DNA::C,
            DNA::R => DNA::Y,
            DNA::S => DNA::S,
            DNA::V => DNA::B,
            DNA::T => DNA::A,
            DNA::W => DNA::W,
            DNA::Y => DNA::R,
            DNA::H => DNA::D,
            DNA::K => DNA::M,
            DNA::D => DNA::H,
            DNA::B => DNA::V,
            DNA::N => DNA::N,
        }
    }
}

impl Match<DNA> for DNA {
    open spec fn spec_matches(&self, other: &DNA) -> bool {
        self.mask() & other.mask() != 0
    }

    fn matches(&self, other: &DNA) -> (r: bool) {
        self.rank() & other.rank() != 0
    }
}

impl RedundantAlphabet for DNA {
    open spec fn spec_union(&self, other: &DNA) -> DNA {
        DNA::spec_from_mask(self.mask() | other.mask())
    }

    open spec fn spec_intersection(&self, other: &DNA) -> Option<DNA> {
        if self.mask() & other.mask() == 0 {
            None
        } else {
            Some(DNA::spec_from_mask(self.mask() & other.mask()))
        }
    }

    open spec fn spec_difference(&self, other: &DNA) -> Option<DNA> {
        if self.mask() & !other.mask() == 0 {
            None
        } else {
            Some(DNA::spec_from_mask(self.mask() & !other.mask()))
        }
    }

    open spec fn spec_is_redundant(&self) -> bool {
        !(self == DNA::A || self == DNA::C || self == DNA::G || self == DNA::T)
    }

    fn union(&self, other: &DNA) -> (r: DNA) {
        let a = self.rank();
        let b = other.rank();
        assert(1 <= a | b <= 15) by (bit_vector)
            requires
                1 <= a <= 15,
                1 <= b <= 15,
        ;
        DNA::from_mask(a | b)
    }

    fn intersection(&self, other: &DNA) -> (r: Option<DNA>) {
        let a = self.rank();
        let b = other.rank();
        let inter = a & b;
        assert(inter <= 15) by (bit_vector)
            requires
                inter == a & b,
                b <= 15,
        ;
        if inter != 0 {
            Some(DNA::from_mask(inter))
        } else {
            None
        }
    }

    fn difference(&self, other: &DNA) -> (r: Option<DNA>) {
        let a = self.rank();
        let b = other.rank();
        let diff = a & !b;
        assert(diff <= 15) by (bit_vector)
            requires
                diff == a & !b,
                a <= 15,
        ;
        if diff != 0 {
            Some(DNA::from_mask(diff))
        } else {
            None
        }
    }

    fn is_redundant(&self) -> (r: bool) {
        match self {
            DNA::A | DNA::C | DNA::G | DNA::T => false,
            _ => true,
        }
    }
}

/// The facts of four-bit masks that the set laws rest on.
pub(crate) proof fn lemma_mask_bits(a: u8, b: u8, c: u8)
    by (bit_vector)
    requires
        1 <= a <= 15,
        1 <= b <= 15,
        1 <= c <= 15,
    ensures
        a | b == b | a,
        a & b == b & a,
        1 <= a | b <= 15,
        a & b <= 15,
        a & !b <= 15,
        a | (b | c) == (a | b) | c,
        a & (b & c) == (a & b) & c,
        a | (b & c) == (a | b) & (a | c),
        a & (b | c) == (a & b) | (a & c),
        (a & b) | (a & c) == 0 ==> a & b == 0 && a & c == 0,
        b & c == 0 ==> a & (b & c) == 0,
        a & b == 0 ==> (a & b) & c == 0,
        a & b != 0 ==> a & b >= 1,
        15 & !b <= 15,
        15 & !b == 0 <==> b == 15,
        a & (15 & !b) == a & !b,
        (a | b) & (a | c) >= 1,
{
}

/// The mask of the symbol of a mask is that mask, and the symbol of a
/// symbol's mask is that symbol.
pub proof fn lemma_mask_round_trip(m: u8, x: DNA)
    ensures
        1 <= m <= 15 ==> DNA::spec_from_mask(m).mask() == m,
        DNA::spec_from_mask(x.mask()) == x,
        1 <= x.mask() <= 15,
{
}

/// Union and intersection of nucleotides do not depend on the order of their
/// arguments.
pub proof fn lemma_union_intersection_commutative(a: DNA, b: DNA)
    ensures
        a.spec_union(&b) == b.spec_union(&a),
        a.spec_intersection(&b) == b.spec_intersection(&a),
{
    lemma_mask_round_trip(0, a);
    lemma_mask_round_trip(0, b);
    lemma_mask_bits(a.mask(), b.mask(), b.mask());
}

/// Union of nucleotides is associative.
pub proof fn lemma_union_associative(a: DNA, b: DNA, c: DNA)
    ensures
        a.spec_union(&b.spec_union(&c)) == a.spec_union(&b).spec_union(&c),
{
    lemma_mask_round_trip(0, a);
    lemma_mask_round_trip(0, b);
    lemma_mask_round_trip(0, c);
    lemma_mask_bits(a.mask(), b.mask(), c.mask());
    lemma_mask_bits(b.mask(), c.mask(), a.mask());
    lemma_mask_round_trip(b.mask() | c.mask(), a);
    lemma_mask_round_trip(a.mask() | b.mask(), a);
}

/// Intersection of nucleotides is associative, an empty intersection
/// staying empty.
pub proof fn lemma_intersection_associative(a: DNA, b: DNA, c: DNA)
    ensures
        match b.spec_intersection(&c) {
            None => None,
            Some(x) => a.spec_intersection(&x),
        } == match a.spec_intersection(&b) {
            None => None,
            Some(x) => x.spec_intersection(&c),
        },
{
    let (ma, mb, mc) = (a.mask(), b.mask(), c.mask());
    lemma_mask_round_trip(0, a);
    lemma_mask_round_trip(0, b);
    lemma_mask_round_trip(0, c);
    lemma_mask_bits(ma, mb, mc);
    lemma_mask_bits(mb, mc, ma);
    lemma_mask_round_trip(mb & mc, a);
    lemma_mask_round_trip(ma & mb, a);
    assert((mb & mc != 0 ==> ma & (mb & mc) == (ma & mb) & mc) && (ma & mb != 0 ==> (ma & mb) & mc
        == ma & (mb & mc))) by (bit_vector);
}

/// Union distributes over intersection: `a | (b & c) == (a | b) & (a | c)`,
/// where an empty `b & c` leaves `a`.
pub proof fn lemma_union_distributes(a: DNA, b: DNA, c: DNA)
    ensures
        a.spec_union(&b).spec_intersection(&a.spec_union(&c)) == Some(
            match b.spec_intersection(&c) {
                None => a,
                Some(x) => a.spec_union(&x),
            },
        ),
{
    let (ma, mb, mc) = (a.mask(), b.mask(), c.mask());
    lemma_mask_round_trip(0, a);
    lemma_mask_round_trip(0, b);
    lemma_mask_round_trip(0, c);
    lemma_mask_bits(ma, mb, mc);
    lemma_mask_bits(mb, mc, ma);
    lemma_mask_bits(ma, mc, mb);
    lemma_mask_round_trip(mb & mc, a);
    lemma_mask_round_trip(ma | mb, a);
    lemma_mask_round_trip(ma | mc, a);
    lemma_mask_round_trip(ma | (mb & mc), a);
    assert(mb & mc == 0 ==> ma | (mb & mc) == ma) by (bit_vector);
}

/// Intersection distributes over union: `a & (b | c) == (a & b) | (a & c)`,
/// where an empty side leaves the other.
pub proof fn lemma_intersection_distributes(a: DNA, b: DNA, c: DNA)
    ensures
        a.spec_intersection(&b.spec_union(&c)) == match (
            a.spec_intersection(&b),
            a.spec_intersection(&c),
        ) {
            (None, r) => r,
            (Some(x), None) => Some(x),
            (Some(x), Some(y)) => Some(x.spec_union(&y)),
        },
{
    let (ma, mb, mc) = (a.mask(), b.mask(), c.mask());
    lemma_mask_round_trip(0, a);
    lemma_mask_round_trip(0, b);
    lemma_mask_round_trip(0, c);
    lemma_mask_bits(ma, mb, mc);
    lemma_mask_bits(mb, mc, ma);
    lemma_mask_bits(ma, mc, mb);
    lemma_mask_round_trip(mb | mc, a);
    lemma_mask_round_trip(ma & mb, a);
    lemma_mask_round_trip(ma & mc, a);
    lemma_mask_round_trip((ma & mb) | (ma & mc), a);
    assert((ma & mb != 0 && ma & mc != 0) ==> 1 <= (ma & mb) | (ma & mc) <= 15) by (bit_vector)
        requires
            ma <= 15,
    ;
    assert((ma & mb == 0 ==> (ma & mb) | (ma & mc) == ma & mc) && (ma & mc == 0 ==> (ma & mb) | (
    ma & mc) == ma & mb)) by (bit_vector);
}

/// The difference `a \ b` is `a` intersected with the complement of `b`
/// within `N`.
pub proof fn lemma_difference_is_intersection(a: DNA, b: DNA)
    ensures
        a.spec_difference(&b) == match DNA::N.spec_difference(&b) {
            None => None,
            Some(x) => a.spec_intersection(&x),
        },
{
    let (ma, mb) = (a.mask(), b.mask());
    lemma_mask_round_trip(0, a);
    lemma_mask_round_trip(0, b);
    lemma_mask_bits(ma, mb, mb);
    lemma_mask_round_trip(15 & !mb, a);
    assert(ma & !15u8 == 0) by (bit_vector)
        requires
            ma <= 15,
    ;
}

/// Complementing twice gives the symbol back.
pub proof fn lemma_complement_involution(a: DNA)
    ensures
        a.spec_complement().spec_complement() == a,
{
}

} // verus!
