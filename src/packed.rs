//! Redundant nucleotides packed two to a byte.
use std::marker::PhantomData;
use vstd::prelude::*;

use crate::dna::DNA;

verus! {

/// Marker types that name a byte order for packed values.
pub trait EndianNess {}

/// Marks big-endian packing.
pub struct BigEndian;

/// Marks little-endian packing.
pub struct LittleEndian;

impl EndianNess for BigEndian {}

impl EndianNess for LittleEndian {}

/// Symbols of alphabet `A` packed into the bits of one byte; `E` marks the
/// byte order. Nucleotides go two to a byte, the first in the low four bits.
pub struct Packed<A, E> {
    bits: u8,
    alphabet: PhantomData<A>,
    endian: PhantomData<E>,
}

/// Random access to the symbols packed into a value.
pub trait BitPack<A>: Sized {
    spec fn spec_capacity() -> nat;

    spec fn wf(&self) -> bool;

    /// The symbol at `index`.
    spec fn spec_get(&self, index: int) -> A;

    /// How many symbols fit.
    fn capacity() -> (r: usize)
        ensures
            r == Self::spec_capacity(),
    ;

    /// The symbol at `index`.
    fn get(&self, index: usize) -> (r: A)
        requires
            self.wf(),
            index < Self::spec_capacity(),
        ensures
            r == self.spec_get(index as int),
    ;

    /// Puts `value` at `index`, leaving the other symbols as they were.
    fn set(&mut self, index: usize, value: A)
        requires
            old(self).wf(),
            index < Self::spec_capacity(),
        ensures
            final(self).wf(),
            final(self).spec_get(index as int) == value,
            forall|j: int|
                0 <= j < Self::spec_capacity() && j != index ==> final(self).spec_get(j) == old(
                    self,
                ).spec_get(j),
    ;
}

/// The low four bits of a byte.
pub open spec fn low(b: u8) -> u8 {
    b & 15
}

/// The high four bits of a byte.
pub open spec fn high(b: u8) -> u8 {
    b >> 4
}

impl<E> Packed<DNA, E> {
    /// Packs two nucleotides, the first in the low four bits.
    pub fn from_pair(pair: [DNA; 2]) -> (r: Packed<DNA, E>)
        ensures
            r.wf(),
            r.spec_get(0) == pair[0],
            r.spec_get(1) == pair[1],
    {
        let a = pair[0].rank();
        let b = pair[1].rank();
        let bits = a | (b << 4);
        assert(low(bits) == a && high(bits) == b) by (bit_vector)
            requires
                bits == a | (b << 4),
                a <= 15,
                b <= 15,
        ;
        proof {
            crate::dna::lemma_mask_round_trip(0, pair[0]);
            crate::dna::lemma_mask_round_trip(0, pair[1]);
        }
        Packed { bits, alphabet: PhantomData, endian: PhantomData }
    }

    /// The two packed nucleotides, in order.
    pub fn into_pair(&self) -> (r: [DNA; 2])
        requires
            self.wf(),
        ensures
            r[0] == self.spec_get(0),
            r[1] == self.spec_get(1),
    {
        [self.get(0), self.get(1)]
    }
}

impl<E> BitPack<DNA> for Packed<DNA, E> {
    open spec fn spec_capacity() -> nat {
        2
    }

    /// Both halves of the byte hold a non-zero mask.
    closed spec fn wf(&self) -> bool {
        low(self.bits) != 0 && high(self.bits) != 0
    }

    closed spec fn spec_get(&self, index: int) -> DNA {
        if index == 0 {
            DNA::spec_from_mask(low(self.bits))
        } else {
            DNA::spec_from_mask(high(self.bits))
        }
    }

    fn capacity() -> (r: usize) {
        2
    }

    fn get(&self, index: usize) -> (r: DNA) {
        let b = self.bits;
        assert(low(b) <= 15 && high(b) <= 15) by (bit_vector);
        if index == 0 {
            DNA::from_mask(b & 15)
        } else {
            DNA::from_mask(b >> 4)
        }
    }

    fn set(&mut self, index: usize, value: DNA) {
        let m = value.rank();
        let b = self.bits;
        if index == 0 {
            let nb = (b & 0xf0) | m;
            assert(low(nb) == m && high(nb) == high(b)) by (bit_vector)
                requires
                    nb == (b & 0xf0) | m,
                    m <= 15,
            ;
            self.bits = nb;
        } else {
            let nb = (b & 15) | (m << 4);
            assert(low(nb) == low(b) && high(nb) == m) by (bit_vector)
                requires
                    nb == (b & 15) | (m << 4),
                    m <= 15,
            ;
            self.bits = nb;
        }
        proof {
            crate::dna::lemma_mask_round_trip(0, value);
        }
    }
}

} // verus!
