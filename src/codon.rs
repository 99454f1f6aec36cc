//! Codons: ordered triples of symbols.
use vstd::prelude::*;

use crate::alphabet::{Alphabet, MAX_CARDINALITY};
use vstd::arithmetic::div_mod::lemma_fundamental_div_mod_converse;
use crate::convert::{spec_parse_char, FromChar};
use crate::errors::{SeqError, SeqErrorKind};
use crate::translate::{CodonTagTable, TranslationTable};

verus! {

/// Three symbols read together.
#[derive(Debug, Clone, Copy, Hash, PartialEq, Eq, PartialOrd, Ord, Structural)]
pub struct Codon<T>(pub T, pub T, pub T);

/// The rank of a codon from the ranks of its symbols in an alphabet of size `c`.
pub open spec fn codon_rank(r1: nat, r2: nat, r3: nat, c: nat) -> nat {
    r1 * c * c + r2 * c + r3
}

impl<T> Codon<T> {
    pub fn new(first: T, second: T, third: T) -> (r: Codon<T>)
        ensures
            r == Codon(first, second, third),
    {
        Codon(first, second, third)
    }

    pub fn first(&self) -> (r: &T)
        ensures
            *r == self.0,
    {
        &self.0
    }

    pub fn second(&self) -> (r: &T)
        ensures
            *r == self.1,
    {
        &self.1
    }

    pub fn third(&self) -> (r: &T)
        ensures
            *r == self.2,
    {
        &self.2
    }

    /// Borrows the three symbols.
    pub fn as_ref(&self) -> (r: Codon<&T>)
        ensures
            *r.0 == self.0,
            *r.1 == self.1,
            *r.2 == self.2,
    {
        Codon(&self.0, &self.1, &self.2)
    }

    /// Translates the codon through a table.
    pub fn translate<U: TranslationTable<Codon<T>, V>, V>(&self, table: &U) -> (r: V)
        ensures
            r == table.spec_get(self),
    {
        table.get(self)
    }

    /// The role of the codon in a table.
    pub fn tag<U: CodonTagTable<Codon<T>, V>, V>(&self, table: &U) -> (r: V)
        ensures
            r == table.spec_get_tag(self),
    {
        table.get_tag(self)
    }

    /// Applies `f` to the three symbols at once.
    pub fn map<U, F: FnOnce(T, T, T) -> (U, U, U)>(self, f: F) -> (r: Codon<U>)
        requires
            f.requires((self.0, self.1, self.2)),
        ensures
            f.ensures((self.0, self.1, self.2), (r.0, r.1, r.2)),
    {
        let Codon(one, two, three) = self;
        let (one, two, three) = f(one, two, three);
        Codon(one, two, three)
    }

    /// Builds a new codon from the three symbols.
    pub fn flat_map<U, F: FnOnce(T, T, T) -> Codon<U>>(self, f: F) -> (r: Codon<U>)
        requires
            f.requires((self.0, self.1, self.2)),
        ensures
            f.ensures((self.0, self.1, self.2), r),
    {
        let Codon(one, two, three) = self;
        f(one, two, three)
    }

    /// Applies `f` to each symbol.
    pub fn map_each<U, F: Fn(T) -> U>(self, f: F) -> (r: Codon<U>)
        requires
            f.requires((self.0,)),
            f.requires((self.1,)),
            f.requires((self.2,)),
        ensures
            f.ensures((self.0,), r.0),
            f.ensures((self.1,), r.1),
            f.ensures((self.2,), r.2),
    {
        let Codon(one, two, three) = self;
        Codon(f(one), f(two), f(three))
    }
}

impl<T: Alphabet> Codon<T> {
    /// The rank of the codon: its symbols read as the digits of a number in
    /// base `T::cardinality()`, first symbol most significant.
    pub open spec fn spec_rank(&self) -> nat {
        codon_rank(self.0.spec_rank(), self.1.spec_rank(), self.2.spec_rank(), T::spec_cardinality())
    }

    pub open spec fn spec_cardinality() -> nat {
        T::spec_cardinality() * T::spec_cardinality() * T::spec_cardinality()
    }

    /// The number of codons over the alphabet: its cardinality cubed.
    pub fn cardinality() -> (r: usize)
        ensures
            r == Self::spec_cardinality(),
    {
        let c = T::cardinality();
        assert(c * c <= 0x100000 && c * c * c <= 0x40000000) by (nonlinear_arith)
            requires
                c <= MAX_CARDINALITY,
                MAX_CARDINALITY == 1024,
        ;
        c * c * c
    }

    /// The rank of the codon, below `cardinality()`.
    pub fn rank(&self) -> (r: usize)
        ensures
            r == self.spec_rank(),
            r < Self::spec_cardinality(),
    {
        let c = T::cardinality();
        let r1 = self.0.rank();
        let r2 = self.1.rank();
        let r3 = self.2.rank();
        proof {
            self.0.lemma_rank_bounds();
            self.1.lemma_rank_bounds();
            self.2.lemma_rank_bounds();
            lemma_codon_rank_bound(r1 as nat, r2 as nat, r3 as nat, c as nat);
            assert(c * c <= 0x100000 && c * c * c <= 0x40000000) by (nonlinear_arith)
                requires
                    c <= MAX_CARDINALITY,
                    MAX_CARDINALITY == 1024,
            ;
            assert(r1 * (c * c) <= c * c * c && r2 * c <= c * c) by (nonlinear_arith)
                requires
                    r1 < c,
                    r2 < c,
            ;
        }
        r1 * (c * c) + r2 * c + r3
    }
}

/// The rank of a codon lies below the cube of the alphabet size.
pub proof fn lemma_codon_rank_bound(r1: nat, r2: nat, r3: nat, c: nat)
    requires
        r1 < c,
        r2 < c,
        r3 < c,
    ensures
        codon_rank(r1, r2, r3, c) < c * c * c,
        r1 * (c * c) + r2 * c + r3 == codon_rank(r1, r2, r3, c),
{
    assert(r2 * c + r3 < c * c) by (nonlinear_arith)
        requires
            r2 < c,
            r3 < c,
    ;
    assert(r1 * c * c + c * c <= c * c * c) by (nonlinear_arith)
        requires
            r1 < c,
    ;
    assert(r1 * (c * c) == r1 * c * c) by (nonlinear_arith);
}

/// Codon ranks are distinct: two codons of the same rank are the same codon.
/// Together with the bound on ranks and `variants`, ranks number the codons
/// densely from zero.
pub proof fn lemma_codon_rank_injective<T: Alphabet>(a: Codon<T>, b: Codon<T>)
    requires
        a.spec_rank() == b.spec_rank(),
    ensures
        a == b,
{
    let c = T::spec_cardinality() as int;
    a.0.lemma_rank_bounds();
    a.1.lemma_rank_bounds();
    a.2.lemma_rank_bounds();
    b.0.lemma_rank_bounds();
    b.1.lemma_rank_bounds();
    b.2.lemma_rank_bounds();
    let (x1, x2, x3) = (a.0.spec_rank() as int, a.1.spec_rank() as int, a.2.spec_rank() as int);
    let (y1, y2, y3) = (b.0.spec_rank() as int, b.1.spec_rank() as int, b.2.spec_rank() as int);
    let r = a.spec_rank() as int;
    assert(r == (x1 * c + x2) * c + x3 && r == (y1 * c + y2) * c + y3) by (nonlinear_arith)
        requires
            r == x1 * c * c + x2 * c + x3,
            r == y1 * c * c + y2 * c + y3,
    ;
    lemma_fundamental_div_mod_converse(r, c, x1 * c + x2, x3);
    lemma_fundamental_div_mod_converse(r, c, y1 * c + y2, y3);
    lemma_fundamental_div_mod_converse(x1 * c + x2, c, x1, x2);
    lemma_fundamental_div_mod_converse(y1 * c + y2, c, y1, y2);
}

impl<T: Alphabet + Copy> Codon<T> {
    /// Every codon over the alphabet, in the order of their ranks.
    pub fn variants() -> (v: Vec<Codon<T>>)
        ensures
            v@.len() == Self::spec_cardinality(),
            forall|i: int| 0 <= i < v@.len() ==> (#[trigger] v@[i]).spec_rank() == i,
    {
        let symbols = T::variants();
        let n = T::cardinality();
        let ghost c = T::spec_cardinality();
        let mut output: Vec<Codon<T>> = Vec::new();
        let mut i: usize = 0;
        while i < n
            invariant
                n == symbols@.len(),
                n == c,
                c == T::spec_cardinality(),
                0 < c <= MAX_CARDINALITY,
                forall|k: int| 0 <= k < n ==> (#[trigger] symbols@[k]).spec_rank() == k,
                i <= n,
                output@.len() == i * n * n,
                forall|k: int| 0 <= k < output@.len() ==> (#[trigger] output@[k]).spec_rank() == k,
            decreases n - i,
        {
            let mut j: usize = 0;
            while j < n
                invariant
                    n == symbols@.len(),
                    n == c,
                c == T::spec_cardinality(),
                    0 < c <= MAX_CARDINALITY,
                    forall|k: int| 0 <= k < n ==> (#[trigger] symbols@[k]).spec_rank() == k,
                    i < n,
                    j <= n,
                    output@.len() == i * n * n + j * n,
                    forall|k: int|
                        0 <= k < output@.len() ==> (#[trigger] output@[k]).spec_rank() == k,
                decreases n - j,
            {
                let mut k: usize = 0;
                while k < n
                    invariant
                        n == symbols@.len(),
                        n == c,
                c == T::spec_cardinality(),
                        0 < c <= MAX_CARDINALITY,
                        forall|q: int| 0 <= q < n ==> (#[trigger] symbols@[q]).spec_rank() == q,
                        i < n,
                        j < n,
                        k <= n,
                        output@.len() == i * n * n + j * n + k,
                        forall|q: int|
                            0 <= q < output@.len() ==> (#[trigger] output@[q]).spec_rank() == q,
                    decreases n - k,
                {
                    proof {
                        assert((i * n * n + j * n + k) as nat == codon_rank(
                            i as nat,
                            j as nat,
                            k as nat,
                            c,
                        )) by (nonlinear_arith)
                            requires
                                n == c,
                c == T::spec_cardinality(),
                        ;
                        assert(i * n * n + j * n + k < n * n * n) by (nonlinear_arith)
                            requires
                                i < n,
                                j < n,
                                k < n,
                        ;
                        assert(n * n * n <= 0x40000000) by (nonlinear_arith)
                            requires
                                n <= MAX_CARDINALITY,
                                MAX_CARDINALITY == 1024,
                        ;
                    }
                    let ghost before = output@;
                    let codon = Codon(symbols[i], symbols[j], symbols[k]);
                    assert(codon.spec_rank() == codon_rank(i as nat, j as nat, k as nat, c)) by {
                        assert(symbols@[i as int].spec_rank() == i);
                        assert(symbols@[j as int].spec_rank() == j);
                        assert(symbols@[k as int].spec_rank() == k);
                    }
                    output.push(codon);
                    assert forall|q: int|
                        0 <= q < output@.len() implies (#[trigger] output@[q]).spec_rank() == q by {
                        if q < before.len() {
                            assert(output@[q] == before[q]);
                        }
                    }
                    k = k + 1;
                }
                assert(i * n * n + j * n + n == i * n * n + (j + 1) * n) by (nonlinear_arith);
                j = j + 1;
            }
            assert(i * n * n + n * n == (i + 1) * n * n) by (nonlinear_arith);
            i = i + 1;
        }
        output
    }
}

/// What reading a codon from the start of `s` gives: the first three
/// characters read as symbols, the first error met, or a codon-too-short error
/// where a character is missing before any error.
pub open spec fn spec_codon_parse<T: FromChar>(s: Seq<char>) -> Result<Codon<T>, SeqError> {
    let short = Err(SeqError { inner: SeqErrorKind::CodonFromStrTooShort });
    if s.len() < 1 {
        short
    } else {
        match spec_parse_char::<T>(s[0]) {
            Err(e) => Err(e),
            Ok(one) => if s.len() < 2 {
                short
            } else {
                match spec_parse_char::<T>(s[1]) {
                    Err(e) => Err(e),
                    Ok(two) => if s.len() < 3 {
                        short
                    } else {
                        match spec_parse_char::<T>(s[2]) {
                            Err(e) => Err(e),
                            Ok(three) => Ok(Codon(one, two, three)),
                        }
                    },
                }
            },
        }
    }
}

impl<T: FromChar> Codon<T> {
    /// Reads a codon from the first three characters of `s`; any further
    /// characters are left alone.
    pub fn try_from_iter(s: &[char]) -> (r: Result<Codon<T>, SeqError>)
        ensures
            r == spec_codon_parse::<T>(s@),
    {
        let short = SeqError::new(SeqErrorKind::CodonFromStrTooShort);
        if s.len() < 1 {
            return Err(short);
        }
        let one = match T::from_char(s[0]) {
            Ok(x) => x,
            Err(e) => return Err(e),
        };
        if s.len() < 2 {
            return Err(short);
        }
        let two = match T::from_char(s[1]) {
            Ok(x) => x,
            Err(e) => return Err(e),
        };
        if s.len() < 3 {
            return Err(short);
        }
        let three = match T::from_char(s[2]) {
            Ok(x) => x,
            Err(e) => return Err(e),
        };
        Ok(Codon(one, two, three))
    }
}

/// The codons of a sequence, read three symbols at a time from either end.
/// Symbols left over at the end, one or two, belong to no codon.
pub struct Codons<T> {
    seq: Vec<T>,
    start: usize,
    end: usize,
}

impl<T> View for Codons<T> {
    type V = Seq<T>;

    /// The symbols not read yet.
    closed spec fn view(&self) -> Seq<T> {
        self.seq@.subrange(self.start as int, self.end as int)
    }
}

impl<T> Codons<T> {
    pub closed spec fn wf(&self) -> bool {
        self.start <= self.end <= self.seq@.len()
    }
}

impl<T: Copy> Codons<T> {
    /// Reads the codons of `seq`.
    pub fn new(seq: Vec<T>) -> (r: Codons<T>)
        ensures
            r.wf(),
            r@ == seq@,
    {
        let end = seq.len();
        let r = Codons { seq, start: 0, end };
        assert(r@ =~= r.seq@);
        r
    }

    /// The number of whole codons left.
    pub fn len(&self) -> (r: usize)
        requires
            self.wf(),
        ensures
            r == self@.len() / 3,
    {
        (self.end - self.start) / 3
    }

    /// Is there no whole codon left?
    pub fn is_empty(&self) -> (r: bool)
        requires
            self.wf(),
        ensures
            r == (self@.len() < 3),
    {
        self.end - self.start < 3
    }

    /// The first codon left. Where fewer than three symbols are left, they are
    /// used up and `None` comes back.
    pub fn next(&mut self) -> (r: Option<Codon<T>>)
        requires
            old(self).wf(),
        ensures
            final(self).wf(),
            old(self)@.len() >= 3 ==> r == Some(Codon(old(self)@[0], old(self)@[1], old(self)@[2]))
                && final(self)@ == old(self)@.subrange(3, old(self)@.len() as int),
            old(self)@.len() < 3 ==> r is None && final(self)@.len() == 0,
    {
        if self.end - self.start < 3 {
            self.start = self.end;
            assert(self@.len() == 0);
            None
        } else {
            let s = self.start;
            let c = Codon(self.seq[s], self.seq[s + 1], self.seq[s + 2]);
            self.start = s + 3;
            assert(self@ =~= old(self)@.subrange(3, old(self)@.len() as int));
            Some(c)
        }
    }

    /// The last whole codon left, after dropping the one or two symbols at the
    /// end that make no codon. Where fewer than three symbols are left, they
    /// are used up and `None` comes back.
    pub fn next_back(&mut self) -> (r: Option<Codon<T>>)
        requires
            old(self).wf(),
        ensures
            final(self).wf(),
            ({
                let s = old(self)@;
                let n = s.len() - s.len() % 3;
                s.len() >= 3 ==> r == Some(Codon(s[n - 3], s[n - 2], s[n - 1])) && final(self)@
                    == s.subrange(0, n - 3)
            }),
            old(self)@.len() < 3 ==> r is None && final(self)@.len() == 0,
    {
        let len = self.end - self.start;
        if len < 3 {
            self.end = self.start;
            assert(self@.len() == 0);
            None
        } else {
            let e = self.end - len % 3;
            let c = Codon(self.seq[e - 3], self.seq[e - 2], self.seq[e - 1]);
            self.end = e - 3;
            assert(self@ =~= old(self)@.subrange(0, (len - len % 3) - 3));
            Some(c)
        }
    }
}

/// Sequences that can be read as codons.
pub trait IntoCodons<T>: Sized {
    spec fn spec_symbols(&self) -> Seq<T>;

    /// The codons of the sequence.
    fn codons(self) -> (r: Codons<T>)
        ensures
            r.wf(),
            r@ == self.spec_symbols(),
    ;
}

impl<T: Copy> IntoCodons<T> for Vec<T> {
    open spec fn spec_symbols(&self) -> Seq<T> {
        self@
    }

    fn codons(self) -> (r: Codons<T>) {
        Codons::new(self)
    }
}

} // verus!
