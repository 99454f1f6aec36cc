//! Alphabets whose symbols are numbered densely from zero.
use vstd::prelude::*;

verus! {

/// The largest alphabet size this library works with; it keeps codon ranks
/// within 32 bits.
pub const MAX_CARDINALITY: usize = 1024;

/// A closed alphabet whose symbols have ranks `0 .. cardinality()`.
pub trait Alphabet: Sized {
    spec fn spec_cardinality() -> nat;

    spec fn spec_rank(&self) -> nat;

    /// The symbol of a rank below the cardinality.
    spec fn spec_from_rank(r: nat) -> Self;

    proof fn lemma_rank_bounds(&self)
        ensures
            self.spec_rank() < Self::spec_cardinality(),
            Self::spec_from_rank(self.spec_rank()) == *self,
    ;

    proof fn lemma_from_rank(r: nat)
        requires
            r < Self::spec_cardinality(),
        ensures
            Self::spec_from_rank(r).spec_rank() == r,
    ;

    /// The size of the alphabet.
    fn cardinality() -> (r: usize)
        ensures
            r == Self::spec_cardinality(),
            0 < r <= MAX_CARDINALITY,
    ;

    /// The numeric identifier of the symbol, below the cardinality.
    fn rank(&self) -> (r: usize)
        ensures
            r == self.spec_rank(),
    ;

    /// The symbol of a rank, or `None` where the rank is not below the cardinality.
    fn from_rank(r: usize) -> (res: Option<Self>)
        ensures
            r < Self::spec_cardinality() ==> res == Some(Self::spec_from_rank(r as nat)),
            r >= Self::spec_cardinality() ==> res.is_none(),
    ;

    /// Every symbol, in the order of their ranks.
    fn variants() -> (v: Vec<Self>)
        ensures
            v@.len() == Self::spec_cardinality(),
            forall|i: int| 0 <= i < v@.len() ==> (#[trigger] v@[i]).spec_rank() == i,
    ;
}

} // verus!
