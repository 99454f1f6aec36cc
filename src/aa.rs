//! The IUPAC amino-acid alphabet.
//!
//! Twenty-two symbols name one residue each (the twenty standard residues,
//! pyrrolysine `O` and selenocysteine `U`). Four are redundant: `B` stands for
//! `D` or `N`, `J` for `I` or `L`, `Z` for `E` or `Q`, and `X` for any residue.
//! These sets do not form a power set, so the set operations answer with the
//! smallest symbol that covers the exact result, and `X` where only it does.
use vstd::prelude::*;

use crate::alphabet::Alphabet;
use crate::charcase::{spec_to_upper, to_upper};
use crate::convert::{FromChar, IntoChar};
use crate::errors::{SeqError, SeqErrorKind};
use crate::matcher::{Match, RedundantAlphabet};

verus! {

/// An amino-acid symbol, ranked in alphabetical order of its letter.
#[derive(Debug, Copy, Clone, PartialEq, Eq, PartialOrd, Ord, Hash, Structural)]
pub enum AA {
    A,
    B,
    C,
    D,
    E,
    F,
    G,
    H,
    I,
    J,
    K,
    L,
    M,
    N,
    O,
    P,
    Q,
    R,
    S,
    T,
    U,
    V,
    W,
    X,
    Y,
    Z,
}

/// Do the residues of `a` lie among those of `p`?
pub open spec fn spec_within(a: AA, p: AA) -> bool {
    a == p || p == AA::X || (p == AA::B && (a == AA::D || a == AA::N)) || (p == AA::J && (a
        == AA::I || a == AA::L)) || (p == AA::Z && (a == AA::E || a == AA::Q))
}

/// Of a redundant symbol standing for two residues, the one that is not `a`.
pub open spec fn spec_other_half(p: AA, a: AA) -> AA {
    if p == AA::B {
        if a == AA::D { AA::N } else { AA::D }
    } else if p == AA::J {
        if a == AA::I { AA::L } else { AA::I }
    } else {
        if a == AA::E { AA::Q } else { AA::E }
    }
}

pub open spec fn spec_is_pair(p: AA) -> bool {
    p == AA::B || p == AA::J || p == AA::Z
}

fn within(a: AA, p: AA) -> (r: bool)
    ensures
        r == spec_within(a, p),
{
    a == p || p == AA::X || (p == AA::B && (a == AA::D || a == AA::N)) || (p == AA::J && (a
        == AA::I || a == AA::L)) || (p == AA::Z && (a == AA::E || a == AA::Q))
}

impl AA {
    pub open spec fn index(self) -> nat {
        match self {
            AA::A => 0,
            AA::B => 1,
            AA::C => 2,
            AA::D => 3,
            AA::E => 4,
            AA::F => 5,
            AA::G => 6,
            AA::H => 7,
            AA::I => 8,
            AA::J => 9,
            AA::K => 10,
            AA::L => 11,
            AA::M => 12,
            AA::N => 13,
            AA::O => 14,
            AA::P => 15,
            AA::Q => 16,
            AA::R => 17,
            AA::S => 18,
            AA::T => 19,
            AA::U => 20,
            AA::V => 21,
            AA::W => 22,
            AA::X => 23,
            AA::Y => 24,
            AA::Z => 25,
        }
    }

    pub open spec fn spec_is_iupac(self) -> bool {
        !(self == AA::J || self == AA::O || self == AA::U)
    }

    /// Is the symbol part of the IUPAC amino-acid code? `J`, `O` and `U` are not.
    pub fn is_iupac(&self) -> (r: bool)
        ensures
            r == self.spec_is_iupac(),
    {
        match self {
            AA::J | AA::O | AA::U => false,
            _ => true,
        }
    }

    /// The residues that a redundant symbol stands for, in alphabetical order;
    /// empty for a symbol that names one residue.
    pub fn redundant_matches(&self) -> (r: Vec<AA>)
        ensures
            forall|x: AA|
                r@.contains(x) <==> self.spec_is_redundant() && !x.spec_is_redundant()
                    && spec_within(x, *self),
    {
        let all = AA::variants();
        let mut r: Vec<AA> = Vec::new();
        if !self.is_redundant() {
            return r;
        }
        let mut i: usize = 0;
        while i < all.len()
            invariant
                self.spec_is_redundant(),
                all@.len() == 26,
                forall|j: int| 0 <= j < 26 ==> (#[trigger] all@[j]).index() == j,
                i <= all@.len(),
                forall|x: AA|
                    #[trigger] r@.contains(x) <==> x.index() < i && !x.spec_is_redundant()
                        && spec_within(x, *self),
            decreases all@.len() - i,
        {
            let x = all[i];
            let ghost old_r = r@;
            let keep = !x.is_redundant() && within(x, *self);
            if keep {
                r.push(x);
            }
            proof {
                assert forall|y: AA|
                    #[trigger] r@.contains(y) <==> y.index() < i + 1 && !y.spec_is_redundant() && spec_within(
                        y,
                        *self,
                    ) by {
                    assert(x.index() == i);
                    if y.index() == i {
                        y.lemma_rank_bounds();
                        x.lemma_rank_bounds();
                        assert(y == x);
                    }

                    if keep {
                        assert(r@ == old_r.push(x));
                        if r@.contains(y) && y != x {
                            let k = choose|k: int| 0 <= k < r@.len() && r@[k] == y;
                            assert(old_r[k] == y);
                        }
                        if old_r.contains(y) {
                            let k = choose|k: int| 0 <= k < old_r.len() && old_r[k] == y;
                            assert(r@[k] == y);
                        }
                        if y == x {
                            assert(r@[r@.len() - 1] == y);
                        }
                    }
                }
            }
            i = i + 1;
        }
        proof {
            assert forall|x: AA| x.index() < 26 by {}
        }
        r
    }
}

impl Default for AA {
    /// The totally ambiguous symbol, `X`.
    fn default() -> (r: AA)
        ensures
            r == AA::X,
    {
        AA::X
    }
}

impl Alphabet for AA {
    open spec fn spec_cardinality() -> nat {
        26
    }

    open spec fn spec_rank(&self) -> nat {
        self.index()
    }

    open spec fn spec_from_rank(r: nat) -> AA {
        if r == 0 {
            AA::A
        } else if r == 1 {
            AA::B
        } else if r == 2 {
            AA::C
        } else if r == 3 {
            AA::D
        } else if r == 4 {
            AA::E
        } else if r == 5 {
            AA::F
        } else if r == 6 {
            AA::G
        } else if r == 7 {
            AA::H
        } else if r == 8 {
            AA::I
        } else if r == 9 {
            AA::J
        } else if r == 10 {
            AA::K
        } else if r == 11 {
            AA::L
        } else if r == 12 {
            AA::M
        } else if r == 13 {
            AA::N
        } else if r == 14 {
            AA::O
        } else if r == 15 {
            AA::P
        } else if r == 16 {
            AA::Q
        } else if r == 17 {
            AA::R
        } else if r == 18 {
            AA::S
        } else if r == 19 {
            AA::T
        } else if r == 20 {
            AA::U
        } else if r == 21 {
            AA::V
        } else if r == 22 {
            AA::W
        } else if r == 23 {
            AA::X
        } else if r == 24 {
            AA::Y
        } else {
            AA::Z
        }
    }

    proof fn lemma_rank_bounds(&self) {
    }

    proof fn lemma_from_rank(r: nat) {
    }

    fn cardinality() -> (r: usize) {
        26
    }

    fn rank(&self) -> (r: usize) {
        assert(self.spec_rank() == self.index());
        match *self {
            AA::A => 0,
            AA::B => 1,
            AA::C => 2,
            AA::D => 3,
            AA::E => 4,
            AA::F => 5,
            AA::G => 6,
            AA::H => 7,
            AA::I => 8,
            AA::J => 9,
            AA::K => 10,
            AA::L => 11,
            AA::M => 12,
            AA::N => 13,
            AA::O => 14,
            AA::P => 15,
            AA::Q => 16,
            AA::R => 17,
            AA::S => 18,
            AA::T => 19,
            AA::U => 20,
            AA::V => 21,
            AA::W => 22,
            AA::X => 23,
            AA::Y => 24,
            AA::Z => 25,
        }
    }

    fn from_rank(r: usize) -> (res: Option<AA>) {
        match r {
            0 => Some(AA::A),
            1 => Some(AA::B),
            2 => Some(AA::C),
            3 => Some(AA::D),
            4 => Some(AA::E),
            5 => Some(AA::F),
            6 => Some(AA::G),
            7 => Some(AA::H),
            8 => Some(AA::I),
            9 => Some(AA::J),
            10 => Some(AA::K),
            11 => Some(AA::L),
            12 => Some(AA::M),
            13 => Some(AA::N),
            14 => Some(AA::O),
            15 => Some(AA::P),
            16 => Some(AA::Q),
            17 => Some(AA::R),
            18 => Some(AA::S),
            19 => Some(AA::T),
            20 => Some(AA::U),
            21 => Some(AA::V),
            22 => Some(AA::W),
            23 => Some(AA::X),
            24 => Some(AA::Y),
            25 => Some(AA::Z),
            _ => None,
        }
    }

    fn variants() -> (v: Vec<AA>) {
        vec![
            AA::A,
            AA::B,
            AA::C,
            AA::D,
            AA::E,
            AA::F,
            AA::G,
            AA::H,
            AA::I,
            AA::J,
            AA::K,
            AA::L,
            AA::M,
            AA::N,
            AA::O,
            AA::P,
            AA::Q,
            AA::R,
            AA::S,
            AA::T,
            AA::U,
            AA::V,
            AA::W,
            AA::X,
            AA::Y,
            AA::Z,
        ]
    }
}

impl IntoChar for AA {
    open spec fn spec_byte(&self) -> u8 {
        (65 + self.index()) as u8
    }

    proof fn lemma_byte_is_upper(&self) {
    }

    proof fn lemma_byte_injective(&self, other: &Self) {
    }

    fn into_byte(&self) -> (r: u8) {
        65 + self.rank() as u8
    }
}

impl FromChar for AA {
    fn from_byte(b: u8) -> (r: Result<AA, SeqError>) {
        let u = to_upper(b);
        if 65 <= u && u <= 90 {
            match AA::from_rank((u - 65) as usize) {
                Some(s) => {
                    proof {
                        AA::lemma_from_rank((u - 65) as nat);
                        assert(s.spec_byte() == spec_to_upper(b));
                        let c = choose|c: AA| #[trigger] c.spec_byte() == spec_to_upper(b);
                        s.lemma_byte_injective(&c);
                    }
                    Ok(s)
                },
                None => Err(SeqError::new(SeqErrorKind::AlphabetReadError { base: b as char })),
            }
        } else {
            Err(SeqError::new(SeqErrorKind::AlphabetReadError { base: b as char }))
        }
    }
}

impl Match<AA> for AA {
    open spec fn spec_matches(&self, other: &AA) -> bool {
        spec_within(*self, *other) || spec_within(*other, *self)
    }

    fn matches(&self, other: &AA) -> (r: bool) {
        within(*self, *other) || within(*other, *self)
    }
}

impl RedundantAlphabet for AA {
    open spec fn spec_union(&self, other: &AA) -> AA {
        let (a, b) = (*self, *other);
        if spec_within(b, a) {
            a
        } else if spec_within(a, b) {
            b
        } else if spec_within(a, AA::B) && spec_within(b, AA::B) {
            AA::B
        } else if spec_within(a, AA::J) && spec_within(b, AA::J) {
            AA::J
        } else if spec_within(a, AA::Z) && spec_within(b, AA::Z) {
            AA::Z
        } else {
            AA::X
        }
    }

    open spec fn spec_intersection(&self, other: &AA) -> Option<AA> {
        let (a, b) = (*self, *other);
        if spec_within(a, b) {
            Some(a)
        } else if spec_within(b, a) {
            Some(b)
        } else {
            None
        }
    }

    open spec fn spec_difference(&self, other: &AA) -> Option<AA> {
        let (a, b) = (*self, *other);
        if spec_within(a, b) {
            None
        } else if spec_is_pair(a) && spec_within(b, a) {
            Some(spec_other_half(a, b))
        } else {
            Some(a)
        }
    }

    open spec fn spec_is_redundant(&self) -> bool {
        *self == AA::B || *self == AA::J || *self == AA::X || *self == AA::Z
    }

    fn union(&self, other: &AA) -> (r: AA) {
        let (a, b) = (*self, *other);
        if within(b, a) {
            a
        } else if within(a, b) {
            b
        } else if within(a, AA::B) && within(b, AA::B) {
            AA::B
        } else if within(a, AA::J) && within(b, AA::J) {
            AA::J
        } else if within(a, AA::Z) && within(b, AA::Z) {
            AA::Z
        } else {
            AA::X
        }
    }

    fn intersection(&self, other: &AA) -> (r: Option<AA>) {
        let (a, b) = (*self, *other);
        if within(a, b) {
            Some(a)
        } else if within(b, a) {
            Some(b)
        } else {
            None
        }
    }

    fn difference(&self, other: &AA) -> (r: Option<AA>) {
        let (a, b) = (*self, *other);
        if within(a, b) {
            None
        } else if within(b, a) {
            match a {
                AA::B => if b == AA::D { Some(AA::N) } else { Some(AA::D) },
                AA::J => if b == AA::I { Some(AA::L) } else { Some(AA::I) },
                AA::Z => if b == AA::E { Some(AA::Q) } else { Some(AA::E) },
                _ => Some(a),
            }
        } else {
            Some(a)
        }
    }

    fn is_redundant(&self) -> (r: bool) {
        match self {
            AA::B | AA::J | AA::X | AA::Z => true,
            _ => false,
        }
    }
}

/// Union and intersection of amino acids do not depend on the order of their
/// arguments.
pub proof fn lemma_aa_commutative(a: AA, b: AA)
    ensures
        a.spec_union(&b) == b.spec_union(&a),
        a.spec_intersection(&b) == b.spec_intersection(&a),
        a.spec_matches(&b) == b.spec_matches(&a),
{
}

} // verus!
