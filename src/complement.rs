//! Complementary bases and reverse complements.
use vstd::prelude::*;

verus! {

/// Symbols with a complementary symbol on the opposite strand.
pub trait Complement: Sized {
    spec fn spec_complement(&self) -> Self;

    /// The complementary symbol.
    fn complement(&self) -> (r: Self)
        ensures
            r == self.spec_complement(),
    ;
}

/// The reverse complement of a sequence: the complements of its symbols, last first.
pub fn reverse_complement<T: Complement>(seq: &Vec<T>) -> (r: Vec<T>)
    ensures
        r@.len() == seq@.len(),
        forall|i: int|
            0 <= i < seq@.len() ==> #[trigger] r@[i] == seq@[seq@.len() - 1 - i].spec_complement(),
{
    let mut r: Vec<T> = Vec::new();
    let n = seq.len();
    let mut k: usize = n;
    while k > 0
        invariant
            n == seq@.len(),
            k <= n,
            r@.len() == n - k,
            forall|i: int| 0 <= i < n - k ==> #[trigger] r@[i] == seq@[n - 1 - i].spec_complement(),
        decreases k,
    {
        k = k - 1;
        r.push(seq[k].complement());
    }
    r
}

/// The reverse complement of a sequence, read one symbol at a time: `next`
/// gives the complement of the last symbol left, `next_back` that of the first.
pub struct ReverseComplement<T> {
    items: Vec<T>,
    start: usize,
    end: usize,
}

impl<T> View for ReverseComplement<T> {
    type V = Seq<T>;

    /// The symbols of the sequence not read yet, in their own order.
    closed spec fn view(&self) -> Seq<T> {
        self.items@.subrange(self.start as int, self.end as int)
    }
}

impl<T> ReverseComplement<T> {
    pub closed spec fn wf(&self) -> bool {
        self.start <= self.end <= self.items@.len()
    }
}

impl<T: Complement + Copy> ReverseComplement<T> {
    /// Reads the reverse complement of `items`.
    pub fn new(items: Vec<T>) -> (r: ReverseComplement<T>)
        ensures
            r.wf(),
            r@ == items@,
    {
        let end = items.len();
        let r = ReverseComplement { items, start: 0, end };
        assert(r@ =~= r.items@);
        r
    }

    /// The number of symbols left.
    pub fn len(&self) -> (r: usize)
        requires
            self.wf(),
        ensures
            r == self@.len(),
    {
        self.end - self.start
    }

    /// Is no symbol left?
    pub fn is_empty(&self) -> (r: bool)
        requires
            self.wf(),
        ensures
            r == (self@.len() == 0),
    {
        self.end == self.start
    }

    /// The complement of the last symbol left.
    pub fn next(&mut self) -> (r: Option<T>)
        requires
            old(self).wf(),
        ensures
            final(self).wf(),
            old(self)@.len() == 0 ==> r is None && final(self)@ == old(self)@,
            old(self)@.len() > 0 ==> r == Some(old(self)@.last().spec_complement()) && final(self)@
                == old(self)@.drop_last(),
    {
        if self.end == self.start {
            None
        } else {
            self.end = self.end - 1;
            let c = self.items[self.end].complement();
            assert(self@ =~= old(self)@.drop_last());
            Some(c)
        }
    }

    /// The complement of the first symbol left.
    pub fn next_back(&mut self) -> (r: Option<T>)
        requires
            old(self).wf(),
        ensures
            final(self).wf(),
            old(self)@.len() == 0 ==> r is None && final(self)@ == old(self)@,
            old(self)@.len() > 0 ==> r == Some(old(self)@[0].spec_complement()) && final(self)@
                == old(self)@.subrange(1, old(self)@.len() as int),
    {
        if self.end == self.start {
            None
        } else {
            let c = self.items[self.start].complement();
            self.start = self.start + 1;
            assert(self@ =~= old(self)@.subrange(1, old(self)@.len() as int));
            Some(c)
        }
    }
}

/// Sequences whose reverse complement can be read.
pub trait IntoReverseComplement<T>: Sized {
    spec fn spec_symbols(&self) -> Seq<T>;

    /// The reverse complement of the sequence.
    fn reverse_complement(self) -> (r: ReverseComplement<T>)
        ensures
            r.wf(),
            r@ == self.spec_symbols(),
    ;
}

impl<T: Complement + Copy> IntoReverseComplement<T> for Vec<T> {
    open spec fn spec_symbols(&self) -> Seq<T> {
        self@
    }

    fn reverse_complement(self) -> (r: ReverseComplement<T>) {
        ReverseComplement::new(self)
    }
}

} // verus!
