use core::cmp::Ordering;

use vstd::prelude::*;
use vstd::std_specs::cmp::{PartialEqSpec, PartialOrdSpec};

use crate::sequence::{lex_cmp, pairwise_eq, zeros, Sequence, SequenceIterator};
use crate::traits::SequenceAlloc;

verus! {

/// `s` followed by as many leading elements of `items` as fit under `bound`;
/// the rest of `items` is dropped.
pub open spec fn truncating_append<T>(s: Seq<T>, items: Seq<T>, bound: nat) -> Seq<T> {
    if s.len() >= bound {
        s
    } else if s.len() + items.len() <= bound {
        s + items
    } else {
        s + items.take(bound - s.len())
    }
}

/// The error of a bounded sequence asked to hold more elements than its
/// bound.
#[derive(Debug, PartialEq, Eq, Structural)]
pub struct SequenceExceedsBoundsError {
    pub len: usize,
    pub upper_bound: usize,
}

impl SequenceExceedsBoundsError {
    /// A message naming the bound and the length asked for.
    pub fn to_string(&self) -> String {
        bounds_message(self.len, self.upper_bound)
    }
}

/// Relies on std's `format!` to render the error's message.
#[verifier::external_body]
fn bounds_message(len: usize, upper_bound: usize) -> String {
    format!("BoundedSequence with upper bound {} initialized with len {}", upper_bound, len)
}

/// When a sequence already holds `bound` elements, a truncating append
/// leaves it unchanged, whatever is appended.
pub proof fn lemma_full_sequence_ignores_extend<T>(s: Seq<T>, items: Seq<T>, bound: nat)
    requires
        s.len() == bound,
    ensures
        truncating_append(s, items, bound) == s,
{
}

/// A truncating append onto a sequence with room for all of `items` is a
/// plain concatenation.
pub proof fn lemma_extend_within_room<T>(s: Seq<T>, items: Seq<T>, bound: nat)
    requires
        s.len() + items.len() <= bound,
    ensures
        truncating_append(s, items, bound) == s + items,
        truncating_append(s, items, bound).len() <= bound,
{
}

/// A sequence of at most `N` elements. Every constructor and every `extend`
/// keeps the length within the bound, and a slice cannot change it.
#[derive(Debug, Hash, Ord)]
pub struct BoundedSequence<T, const N: usize> {
    inner: Sequence<T>,
}

impl<T, const N: usize> View for BoundedSequence<T, N> {
    type V = Seq<T>;

    closed spec fn view(&self) -> Seq<T> {
        self.inner@
    }
}

impl<T: SequenceAlloc, const N: usize> BoundedSequence<T, N> {
    /// Creates a sequence of `len` elements with the zero value; `len` must
    /// not exceed the bound.
    pub fn new(len: usize) -> (r: Self)
        requires
            len <= N,
        ensures
            r@ == zeros::<T>(len as nat),
    {
        BoundedSequence { inner: Sequence::new(len) }
    }

    /// Creates a sequence of `len` elements with the zero value, or fails when
    /// `len` exceeds the bound.
    pub fn try_new(len: usize) -> (r: Result<Self, SequenceExceedsBoundsError>)
        ensures
            match r {
                Ok(s) => len <= N && s@ == zeros::<T>(len as nat),
                Err(e) => len > N && e.len == len && e.upper_bound == N,
            },
    {
        if len > N {
            return Err(SequenceExceedsBoundsError { len, upper_bound: N });
        }
        Ok(BoundedSequence { inner: Sequence::new(len) })
    }

    /// The number of elements.
    pub fn len(&self) -> (r: usize)
        ensures
            r == self@.len(),
    {
        self.inner.len()
    }

    /// Whether the sequence has no element.
    pub fn is_empty(&self) -> (r: bool)
        ensures
            r == (self@.len() == 0),
    {
        self.inner.is_empty()
    }

    /// Extracts a slice containing the entire sequence.
    pub fn as_slice(&self) -> (r: &[T])
        ensures
            r@ == self@,
    {
        self.inner.as_slice()
    }

    /// Extracts a mutable slice containing the entire sequence; writes
    /// through it land in the sequence.
    pub fn as_mut_slice(&mut self) -> (r: &mut [T])
        ensures
            r@ == old(self)@,
            final(self)@ == final(r)@,
    {
        self.inner.as_mut_slice()
    }
}

impl<T: SequenceAlloc, const N: usize> BoundedSequence<T, N> {
    /// Appends the leading elements of `items`, in order, as long as there is
    /// room under the bound; the remaining ones are dropped.
    pub fn extend(&mut self, items: Vec<T>)
        ensures
            final(self)@ == truncating_append(old(self)@, items@, N as nat),
    {
        let len = self.inner.len();
        let room = if len >= N {
            0
        } else {
            N - len
        };
        let mut items = items;
        items.truncate(room);
        self.inner.extend(items);
        assert(old(self)@.len() >= N ==> items@ =~= Seq::<T>::empty());
    }

    /// Builds a bounded sequence holding the elements of `v`, in order, or
    /// fails when `v` is longer than the bound.
    pub fn try_from_vec(v: Vec<T>) -> (r: Result<Self, SequenceExceedsBoundsError>)
        ensures
            match r {
                Ok(s) => v@.len() <= N && s@ == v@,
                Err(e) => v@.len() > N && e.len == v@.len() && e.upper_bound == N,
            },
    {
        if v.len() > N {
            Err(SequenceExceedsBoundsError { len: v.len(), upper_bound: N })
        } else {
            Ok(BoundedSequence { inner: Sequence::from_vec(v) })
        }
    }

    /// Builds a bounded sequence holding copies of the elements of `slice`,
    /// in order, or fails when `slice` is longer than the bound.
    pub fn try_from_slice(slice: &[T]) -> (r: Result<Self, SequenceExceedsBoundsError>) where
        T: Copy,
        ensures
            match r {
                Ok(s) => slice@.len() <= N && s@ == slice@,
                Err(e) => slice@.len() > N && e.len == slice@.len() && e.upper_bound == N,
            },
    {
        match Self::try_new(slice.len()) {
            Err(e) => Err(e),
            Ok(seq) => {
                let mut inner = seq.inner;
                inner.copy_from_slice(slice);
                Ok(BoundedSequence { inner })
            },
        }
    }

    /// Consumes the sequence into an iterator over its elements, in order.
    pub fn into_iter(self) -> (r: SequenceIterator<T>)
        ensures
            r.remaining() == self@,
    {
        self.inner.into_iter()
    }
}

impl<T: SequenceAlloc, const N: usize> Default for BoundedSequence<T, N> {
    /// The empty bounded sequence; nothing is allocated.
    fn default() -> (r: Self)
        ensures
            r@ == Seq::<T>::empty(),
    {
        BoundedSequence { inner: Sequence::default() }
    }
}

impl<T: SequenceAlloc, const N: usize> Clone for BoundedSequence<T, N> {
    /// A new bounded sequence with its own buffer and the same elements.
    fn clone(&self) -> (r: Self)
        ensures
            r@ == self@,
    {
        BoundedSequence { inner: self.inner.clone() }
    }
}

/// Equal when the elements are, as for the unbounded form.
impl<T: PartialEq, const N: usize> PartialEq for BoundedSequence<T, N> {
    fn eq(&self, other: &Self) -> (r: bool) {
        self.inner == other.inner
    }
}

impl<T: PartialEq, const N: usize> vstd::std_specs::cmp::PartialEqSpecImpl for BoundedSequence<T, N> {
    open spec fn obeys_eq_spec() -> bool {
        T::obeys_eq_spec()
    }

    open spec fn eq_spec(&self, other: &Self) -> bool {
        pairwise_eq(self@, other@)
    }
}

impl<T: Eq, const N: usize> Eq for BoundedSequence<T, N> {

}

/// Ordered lexicographically, as the unbounded form.
impl<T: PartialOrd, const N: usize> PartialOrd for BoundedSequence<T, N> {
    fn partial_cmp(&self, other: &Self) -> (r: Option<Ordering>) {
        self.inner.partial_cmp(&other.inner)
    }
}

impl<T: PartialOrd, const N: usize> vstd::std_specs::cmp::PartialOrdSpecImpl for BoundedSequence<T, N> {
    open spec fn obeys_partial_cmp_spec() -> bool {
        T::obeys_partial_cmp_spec()
    }

    open spec fn partial_cmp_spec(&self, other: &Self) -> Option<Ordering> {
        lex_cmp(self@, other@)
    }
}

} // verus!
