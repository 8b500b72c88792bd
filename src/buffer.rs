//! The nested-sequence buffer: an owned, append-only list of token
//! sequences, reached only through an index-based accessor.
use vstd::prelude::*;

verus! {

/// An index at or past the end of a buffer.
#[derive(Clone, Copy, Debug, PartialEq, Eq, Structural)]
pub struct OutOfRange {
    pub index: usize,
    pub len: usize,
}

/// An ordered list of sequences; insertion order is kept.
pub struct NestedSeq<T> {
    items: Vec<Vec<T>>,
}

/// A buffer of token sequences.
pub type VecVecString = NestedSeq<String>;

/// A buffer of token-id sequences.
pub type VecVecUsize = NestedSeq<usize>;

impl<T> View for NestedSeq<T> {
    type V = Seq<Seq<T>>;

    closed spec fn view(&self) -> Seq<Seq<T>> {
        self.items@.map_values(|v: Vec<T>| v@)
    }
}

impl<T> NestedSeq<T> {
    /// An empty buffer.
    pub fn new() -> (r: Self)
        ensures
            r@ == Seq::<Seq<T>>::empty(),
    {
        NestedSeq { items: Vec::new() }
    }

    /// A buffer holding the given sequences, in order.
    pub fn new_unique_from(value: Vec<Vec<T>>) -> (r: Self)
        ensures
            r@ == value@.map_values(|v: Vec<T>| v@),
    {
        NestedSeq { items: value }
    }

    /// Capacity hint; the contents do not change.
    pub fn reserve(&mut self, size: usize)
        ensures
            final(self)@ == old(self)@,
    {
        self.items.reserve(size);
    }

    /// Appends one sequence at the end.
    pub fn push_back(&mut self, data: Vec<T>)
        ensures
            final(self)@ == old(self)@.push(data@),
    {
        self.items.push(data);
        proof {
            assert(final(self)@ =~= old(self)@.push(data@));
        }
    }

    /// The `index`-th sequence, or `OutOfRange` where there is none.
    pub fn at(&self, index: usize) -> (r: Result<&Vec<T>, OutOfRange>)
        ensures
            index < self@.len() ==> (r matches Ok(v) && v@ == self@[index as int]),
            index >= self@.len() ==> r == Err::<&Vec<T>, OutOfRange>(
                OutOfRange { index, len: self@.len() as usize },
            ),
    {
        if index < self.items.len() {
            Ok(&self.items[index])
        } else {
            Err(OutOfRange { index, len: self.items.len() })
        }
    }

    /// Removes every sequence.
    pub fn clear(&mut self)
        ensures
            final(self)@ == Seq::<Seq<T>>::empty(),
    {
        self.items.clear();
        proof {
            assert(final(self)@ =~= Seq::<Seq<T>>::empty());
        }
    }

    pub fn empty(&self) -> (r: bool)
        ensures
            r == (self@.len() == 0),
    {
        self.items.len() == 0
    }

    pub fn len(&self) -> (r: usize)
        ensures
            r == self@.len(),
    {
        self.items.len()
    }

    /// The sequences, handed back in order.
    pub fn into_vec(self) -> (r: Vec<Vec<T>>)
        ensures
            r@.map_values(|v: Vec<T>| v@) == self@,
    {
        self.items
    }
}

} // verus!
