//! The roles a codon plays in translation: start, stop or residue.
//!
//! A tag stands for a non-empty set of the three roles, held as a three-bit
//! mask: bit 0 for start, bit 1 for residue and bit 2 for stop. The tags are
//! declared in the order of their masks, and the set operations act on them,
//! as they do for nucleotides.
use vstd::prelude::*;

use crate::matcher::{Match, RedundantAlphabet};

verus! {

#[derive(Debug, Clone, PartialEq, Eq, Copy, Hash, Structural)]
pub enum CodonTag {
    Start,
    Res,
    StartRes,
    Stop,
    StartStop,
    StopRes,
    Any,
}

impl CodonTag {
    /// The set of roles as a mask.
    pub open spec fn mask(self) -> u8 {
        match self {
            CodonTag::Start => 1,
            CodonTag::Res => 2,
            CodonTag::StartRes => 3,
            CodonTag::Stop => 4,
            CodonTag::StartStop => 5,
            CodonTag::StopRes => 6,
            CodonTag::Any => 7,
        }
    }

    pub open spec fn spec_from_mask(m: u8) -> CodonTag {
        if m == 1 {
            CodonTag::Start
        } else if m == 2 {
            CodonTag::Res
        } else if m == 3 {
            CodonTag::StartRes
        } else if m == 4 {
            CodonTag::Stop
        } else if m == 5 {
            CodonTag::StartStop
        } else if m == 6 {
            CodonTag::StopRes
        } else {
            CodonTag::Any
        }
    }

    /// The set of roles as a mask.
    pub fn bits(&self) -> (r: u8)
        ensures
            r == self.mask(),
            1 <= r <= 7,
    {
        match self {
            CodonTag::Start => 1,
            CodonTag::Res => 2,
            CodonTag::StartRes => 3,
            CodonTag::Stop => 4,
            CodonTag::StartStop => 5,
            CodonTag::StopRes => 6,
            CodonTag::Any => 7,
        }
    }

    /// The tag for the roles of a non-zero three-bit mask.
    pub fn from_bits(m: u8) -> (r: CodonTag)
        requires
            1 <= m <= 7,
        ensures
            r == CodonTag::spec_from_mask(m),
            r.mask() == m,
    {
        match m {
            1 => CodonTag::Start,
            2 => CodonTag::Res,
            3 => CodonTag::StartRes,
            4 => CodonTag::Stop,
            5 => CodonTag::StartStop,
            6 => CodonTag::StopRes,
            _ => CodonTag::Any,
        }
    }

    /// The number of tags.
    pub fn cardinality() -> (r: usize)
        ensures
            r == 7,
    {
        7
    }

    /// Every tag, in the order of their masks.
    pub fn variants() -> (r: Vec<CodonTag>)
        ensures
            r@.len() == 7,
            forall|i: int| 0 <= i < 7 ==> (#[trigger] r@[i]).mask() == i + 1,
    {
        vec![
            CodonTag::Start,
            CodonTag::Res,
            CodonTag::StartRes,
            CodonTag::Stop,
            CodonTag::StartStop,
            CodonTag::StopRes,
            CodonTag::Any,
        ]
    }

    /// The tags whose roles lie within those of this one, other than itself;
    /// empty for a single role.
    pub fn redundancy(&self) -> (r: Vec<CodonTag>)
        ensures
            forall|x: CodonTag|
                r@.contains(x) <==> x != *self && x.mask() & self.mask() == x.mask(),
    {
        let all = CodonTag::variants();
        let m = self.bits();
        let mut r: Vec<CodonTag> = Vec::new();
        let mut i: usize = 0;
        while i < all.len()
            invariant
                m == self.mask(),
                all@.len() == 7,
                forall|j: int| 0 <= j < 7 ==> (#[trigger] all@[j]).mask() == j + 1,
                i <= all@.len(),
                forall|x: CodonTag|
                    #[trigger] r@.contains(x) <==> x.mask() <= i && x != *self && x.mask()
                        & self.mask() == x.mask(),
            decreases all@.len() - i,
        {
            let x = all[i];
            let ghost old_r = r@;
            let xm = x.bits();
            let keep = x != *self && xm & m == xm;
            if keep {
                r.push(x);
            }
            proof {
                assert forall|y: CodonTag|
                    #[trigger] r@.contains(y) <==> y.mask() <= i + 1 && y != *self && y.mask()
                        & self.mask() == y.mask() by {
                    if y.mask() == i + 1 {
                        assert(y == x);
                    }
                    if keep {
                        assert(r@ == old_r.push(x));
                        if r@.contains(y) && y != x {
                            let k = choose|k: int| 0 <= k < r@.len() && r@[k] == y;
                            assert(old_r[k] == y);
                        }
                        if old_r.contains(y) {
                            let k = choose|k: int| 0 <= k < old_r.len() && old_r[k] == y;
                            assert(r@[k] == y);
                        }
                        if y == x {
                            assert(r@[r@.len() - 1] == y);
                        }
                    }
                }
            }
            i = i + 1;
        }
        r
    }
}

impl Match<CodonTag> for CodonTag {
    open spec fn spec_matches(&self, other: &CodonTag) -> bool {
        self.mask() & other.mask() != 0
    }

    fn matches(&self, other: &CodonTag) -> (r: bool) {
        self.bits() & other.bits() != 0
    }
}

impl RedundantAlphabet for CodonTag {
    open spec fn spec_union(&self, other: &CodonTag) -> CodonTag {
        CodonTag::spec_from_mask(self.mask() | other.mask())
    }

    open spec fn spec_intersection(&self, other: &CodonTag) -> Option<CodonTag> {
        if self.mask() & other.mask() == 0 {
            None
        } else {
            Some(CodonTag::spec_from_mask(self.mask() & other.mask()))
        }
    }

    open spec fn spec_difference(&self, other: &CodonTag) -> Option<CodonTag> {
        if self.mask() & !other.mask() == 0 {
            None
        } else {
            Some(CodonTag::spec_from_mask(self.mask() & !other.mask()))
        }
    }

    open spec fn spec_is_redundant(&self) -> bool {
        !(*self == CodonTag::Start || *self == CodonTag::Res || *self == CodonTag::Stop)
    }

    fn union(&self, other: &CodonTag) -> (r: CodonTag) {
        let a = self.bits();
        let b = other.bits();
        assert(1 <= a | b <= 7) by (bit_vector)
            requires
                1 <= a <= 7,
                1 <= b <= 7,
        ;
        CodonTag::from_bits(a | b)
    }

    fn intersection(&self, other: &CodonTag) -> (r: Option<CodonTag>) {
        let a = self.bits();
        let b = other.bits();
        let inter = a & b;
        assert(inter <= 7) by (bit_vector)
            requires
                inter == a & b,
                b <= 7,
        ;
        if inter != 0 {
            Some(CodonTag::from_bits(inter))
        } else {
            None
        }
    }

    fn difference(&self, other: &CodonTag) -> (r: Option<CodonTag>) {
        let a = self.bits();
        let b = other.bits();
        let diff = a & !b;
        assert(diff <= 7) by (bit_vector)
            requires
                diff == a & !b,
                a <= 7,
        ;
        if diff != 0 {
            Some(CodonTag::from_bits(diff))
        } else {
            None
        }
    }

    fn is_redundant(&self) -> (r: bool) {
        match self {
            CodonTag::Start | CodonTag::Res | CodonTag::Stop => false,
            _ => true,
        }
    }
}

/// Union and intersection of tags do not depend on the order of their
/// arguments, and union is associative.
pub proof fn lemma_tag_algebra(a: CodonTag, b: CodonTag, c: CodonTag)
    ensures
        a.spec_union(&b) == b.spec_union(&a),
        a.spec_intersection(&b) == b.spec_intersection(&a),
        a.spec_union(&b.spec_union(&c)) == a.spec_union(&b).spec_union(&c),
{
    let (ma, mb, mc) = (a.mask(), b.mask(), c.mask());
    crate::dna::lemma_mask_bits(ma, mb, mc);
    crate::dna::lemma_mask_bits(mb, mc, ma);
    assert(ma | mb <= 7 && mb | mc <= 7 && (ma | mb) | mc <= 7) by (bit_vector)
        requires
            ma <= 7,
            mb <= 7,
            mc <= 7,
    ;
}

} // verus!
