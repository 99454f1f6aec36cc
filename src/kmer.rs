//! K-mers: runs of `K` symbols, held as their rank alone.
use std::marker::PhantomData;
use vstd::arithmetic::power::{lemma_pow_increases, pow};
use vstd::prelude::*;

use crate::alphabet::Alphabet;

verus! {

/// A run of `K` symbols of alphabet `A`, held as its rank: the symbols read as
/// the digits of a number in base `A::cardinality()`, first symbol most
/// significant.
pub struct SimpleKmer<A, const K: usize> {
    inner: usize,
    alphabet: PhantomData<A>,
}

impl<A: Alphabet, const K: usize> SimpleKmer<A, K> {
    /// The number of k-mers over the alphabet: its cardinality to the power `K`.
    pub open spec fn spec_cardinality() -> nat {
        pow(A::spec_cardinality() as int, K as nat) as nat
    }

    pub closed spec fn spec_rank(&self) -> nat {
        self.inner as nat
    }

    pub closed spec fn wf(&self) -> bool {
        self.inner < Self::spec_cardinality()
    }

    /// The number of k-mers over the alphabet, where it fits a `usize`.
    pub fn cardinality() -> (r: usize)
        requires
            Self::spec_cardinality() <= usize::MAX,
        ensures
            r == Self::spec_cardinality(),
    {
        let c = A::cardinality();
        let mut acc: usize = 1;
        let mut i: usize = 0;
        proof {
            reveal(pow);
        }
        while i < K
            invariant
                c == A::spec_cardinality(),
                0 < c,
                i <= K,
                acc == pow(c as int, i as nat),
                pow(c as int, K as nat) <= usize::MAX,
            decreases K - i,
        {
            proof {
                lemma_pow_increases(c as nat, (i + 1) as nat, K as nat);
                reveal(pow);
                assert(pow(c as int, (i + 1) as nat) == c * pow(c as int, i as nat));
                assert(acc * c == c * acc) by (nonlinear_arith);
            }
            acc = acc * c;
            i = i + 1;
        }
        acc
    }

    /// The rank of the k-mer.
    pub fn rank(&self) -> (r: usize)
        ensures
            r == self.spec_rank(),
    {
        self.inner
    }

    /// The k-mer of a rank, or `None` where the rank is not below the number
    /// of k-mers.
    pub fn from_rank(r: usize) -> (res: Option<SimpleKmer<A, K>>)
        requires
            Self::spec_cardinality() <= usize::MAX,
        ensures
            r < Self::spec_cardinality() ==> (res matches Some(k) && k.spec_rank() == r && k.wf()),
            r >= Self::spec_cardinality() ==> res is None,
    {
        if r < Self::cardinality() {
            Some(SimpleKmer { inner: r, alphabet: PhantomData })
        } else {
            None
        }
    }
}

} // verus!
