//! Matching and set operations over redundant alphabets.
//!
//! Value equality (`==`) stays strict. [`Match`] answers whether two symbols can
//! stand for the same concrete residue, and [`RedundantAlphabet`] combines the
//! sets of concrete residues that redundant symbols stand for. An empty result
//! is `None`.
use vstd::prelude::*;

verus! {

/// Whether two symbols may denote the same concrete residue.
pub trait Match<T> {
    spec fn spec_matches(&self, other: &T) -> bool;

    fn matches(&self, other: &T) -> (r: bool)
        ensures
            r == self.spec_matches(other),
    ;

    fn doesnt_match(&self, other: &T) -> (r: bool)
        ensures
            r == !self.spec_matches(other),
    {
        !self.matches(other)
    }
}

/// Set operations on the concrete residues that redundant symbols stand for.
pub trait RedundantAlphabet: Sized {
    spec fn spec_union(&self, other: &Self) -> Self;

    spec fn spec_intersection(&self, other: &Self) -> Option<Self>;

    spec fn spec_difference(&self, other: &Self) -> Option<Self>;

    spec fn spec_is_redundant(&self) -> bool;

    /// The set union of two symbols.
    fn union(&self, other: &Self) -> (r: Self)
        ensures
            r == self.spec_union(other),
    ;

    /// The set intersection of two symbols, with `None` for the empty set.
    fn intersection(&self, other: &Self) -> (r: Option<Self>)
        ensures
            r == self.spec_intersection(other),
    ;

    /// The set difference of two symbols, with `None` for the empty set.
    fn difference(&self, other: &Self) -> (r: Option<Self>)
        ensures
            r == self.spec_difference(other),
    ;

    /// Does the symbol stand for more than one concrete residue?
    fn is_redundant(&self) -> (r: bool)
        ensures
            r == self.spec_is_redundant(),
    ;
}

} // verus!
