use core::cmp::Ordering;

use vstd::prelude::*;
use vstd::std_specs::cmp::{PartialEqSpec, PartialOrdSpec};

use crate::traits::SequenceAlloc;

verus! {

/// `n` slots, each holding the zero value of `T`.
pub open spec fn zeros<T: SequenceAlloc>(n: nat) -> Seq<T> {
    Seq::new(n, |i: int| T::zero_value())
}

/// The contents after a resize of `s` to `new_len` slots: the first elements
/// are kept, and slots past the old end hold the zero value.
pub open spec fn resized<T: SequenceAlloc>(s: Seq<T>, new_len: nat) -> Seq<T> {
    if new_len <= s.len() {
        s.take(new_len as int)
    } else {
        s + zeros::<T>((new_len - s.len()) as nat)
    }
}

/// Lexicographic comparison of `a` and `b`: the first pair of elements that
/// does not compare equal decides; when one runs out first, it is the smaller.
pub open spec fn lex_cmp<T: PartialOrd>(a: Seq<T>, b: Seq<T>) -> Option<Ordering>
    decreases a.len(),
{
    if a.len() == 0 {
        if b.len() == 0 {
            Some(Ordering::Equal)
        } else {
            Some(Ordering::Less)
        }
    } else if b.len() == 0 {
        Some(Ordering::Greater)
    } else {
        let c = a[0].partial_cmp_spec(&b[0]);
        if c == Some(Ordering::Equal) {
            lex_cmp(a.drop_first(), b.drop_first())
        } else {
            c
        }
    }
}

/// Whether `a` and `b` have the same length and equal elements pairwise.
pub open spec fn pairwise_eq<T: PartialEq>(a: Seq<T>, b: Seq<T>) -> bool {
    a.len() == b.len() && forall|i: int| 0 <= i < a.len() ==> a[i].eq_spec(&b[i])
}

/// Two sequences of equal length compare, lexicographically, as their first
/// pair of elements that does not compare equal; with no such pair they are
/// equal.
pub proof fn lemma_lex_cmp_first_difference<T: PartialOrd>(a: Seq<T>, b: Seq<T>, k: int)
    requires
        a.len() == b.len(),
        0 <= k <= a.len(),
        forall|j: int| 0 <= j < k ==> a[j].partial_cmp_spec(&b[j]) == Some(Ordering::Equal),
        k < a.len() ==> a[k].partial_cmp_spec(&b[k]) != Some(Ordering::Equal),
    ensures
        k < a.len() ==> lex_cmp(a, b) == a[k].partial_cmp_spec(&b[k]),
        k == a.len() ==> lex_cmp(a, b) == Some(Ordering::Equal),
    decreases k,
{
    if k > 0 {
        let a1 = a.drop_first();
        let b1 = b.drop_first();
        assert forall|j: int| 0 <= j < k - 1 implies a1[j].partial_cmp_spec(&b1[j]) == Some(
            Ordering::Equal,
        ) by {
            assert(a1[j] == a[j + 1]);
            assert(b1[j] == b[j + 1]);
        }
        lemma_lex_cmp_first_difference(a1, b1, k - 1);
    }
}

/// An unbounded sequence. Its buffer is owned by the sequence alone and is
/// filled, released and copied through the backend of `T`. The buffer holds
/// exactly the elements: growing or shrinking moves them into a fresh buffer
/// of the target length, so no spare capacity outlives an operation.
#[derive(Debug, Hash, Ord)]
pub struct Sequence<T> {
    data: Vec<T>,
}

impl<T> View for Sequence<T> {
    type V = Seq<T>;

    closed spec fn view(&self) -> Seq<T> {
        self.data@
    }
}

impl<T: SequenceAlloc> Default for Sequence<T> {
    /// The empty sequence; nothing is allocated.
    fn default() -> (r: Self)
        ensures
            r@ == Seq::<T>::empty(),
    {
        Sequence { data: Vec::new() }
    }
}

impl<T: SequenceAlloc> Sequence<T> {
    /// Creates a sequence of `len` elements with the zero value.
    pub fn new(len: usize) -> (r: Self)
        ensures
            r@ == zeros::<T>(len as nat),
    {
        let mut seq = Self::default();
        T::sequence_init(&mut seq, len);
        seq
    }

    /// The number of elements.
    pub fn len(&self) -> (r: usize)
        ensures
            r == self@.len(),
    {
        self.data.len()
    }

    /// Whether the sequence has no element.
    pub fn is_empty(&self) -> (r: bool)
        ensures
            r == (self@.len() == 0),
    {
        self.data.len() == 0
    }

    /// Extracts a slice containing the entire sequence.
    pub fn as_slice(&self) -> (r: &[T])
        ensures
            r@ == self@,
    {
        self.data.as_slice()
    }

    /// Extracts a mutable slice containing the entire sequence; writes
    /// through it land in the sequence.
    pub fn as_mut_slice(&mut self) -> (r: &mut [T])
        ensures
            r@ == old(self)@,
            final(self)@ == final(r)@,
    {
        self.data.as_mut_slice()
    }

}

impl<T> Sequence<T> {
    /// Replaces the contents by `size` copies of `value`. A building block
    /// for the backends of plain-value types.
    pub fn fill_with(&mut self, size: usize, value: T) where T: Copy
        ensures
            final(self)@ == Seq::new(size as nat, |i: int| value),
    {
        let mut data: Vec<T> = Vec::with_capacity(size);
        let mut i: usize = 0;
        while i < size
            invariant
                i <= size,
                data@ == Seq::new(i as nat, |j: int| value),
            decreases size - i,
        {
            data.push(value);
            i += 1;
            assert(data@ =~= Seq::new(i as nat, |j: int| value));
        }
        self.data = data;
    }

    /// Overwrites the elements with copies of those of `src`, which has the
    /// same length.
    pub fn copy_from_slice(&mut self, src: &[T]) where T: Copy
        requires
            old(self)@.len() == src@.len(),
        ensures
            final(self)@ == src@,
    {
        let n = src.len();
        let mut i: usize = 0;
        while i < n
            invariant
                n == src@.len(),
                self@.len() == n,
                i <= n,
                forall|j: int| 0 <= j < i ==> self@[j] == src@[j],
            decreases n - i,
        {
            self.data.set(i, src[i]);
            i += 1;
        }
        assert(self@ =~= src@);
    }

    /// Drops the buffer, leaving the sequence empty. A building block for
    /// backends.
    pub fn release(&mut self)
        ensures
            final(self)@ == Seq::<T>::empty(),
    {
        self.data = Vec::new();
    }

    /// Replaces the contents by a copy of `src`. A building block for the
    /// backends of plain-value types.
    pub fn copy_from(&mut self, src: &Sequence<T>) where T: Copy
        ensures
            final(self)@ == src@,
    {
        let n = src.data.len();
        let mut data: Vec<T> = Vec::with_capacity(n);
        let mut i: usize = 0;
        while i < n
            invariant
                n == src@.len(),
                i <= n,
                data@ == src@.take(i as int),
            decreases n - i,
        {
            data.push(src.data[i]);
            i += 1;
            assert(data@ =~= src@.take(i as int));
        }
        self.data = data;
    }
}

impl<T: SequenceAlloc> Sequence<T> {
    /// Moves the contents into a buffer of `new_size` fresh slots: the first
    /// elements move over in order, and slots past the old end keep the zero
    /// value. The old buffer is released through the backend.
    fn resize(&mut self, new_size: usize)
        ensures
            final(self)@ == resized(old(self)@, new_size as nat),
    {
        let ghost before = self@;
        let mut old_seq = Sequence::new(new_size);
        core::mem::swap(self, &mut old_seq);
        let keep = if old_seq.data.len() < new_size {
            old_seq.data.len()
        } else {
            new_size
        };
        let mut it = old_seq.into_iter();
        let mut i: usize = 0;
        while i < keep
            invariant
                keep <= new_size,
                keep <= before.len(),
                i <= keep,
                it.remaining() == before.skip(i as int),
                self@.len() == new_size,
                forall|j: int| 0 <= j < i ==> self@[j] == before[j],
                forall|j: int| i <= j < new_size ==> self@[j] == T::zero_value(),
            decreases keep - i,
        {
            if let Some(elem) = it.next() {
                self.data.set(i, elem);
            }
            i += 1;
        }
        let SequenceIterator { seq: mut rest, idx: _ } = it;
        T::sequence_fini(&mut rest);
        assert(self@ =~= resized(before, new_size as nat));
    }

    /// Grows the buffer to `len` slots when it holds fewer, filling the new
    /// slots with the zero value; a longer sequence is left as it is.
    pub fn resize_to_at_least(&mut self, len: usize)
        ensures
            len <= old(self)@.len() ==> final(self)@ == old(self)@,
            len > old(self)@.len() ==> final(self)@ == old(self)@ + zeros::<T>(
                (len - old(self)@.len()) as nat,
            ),
    {
        if self.data.len() < len {
            self.resize(len);
        }
    }

    /// Appends the elements of `items` in order, after the present ones.
    ///
    /// The number of incoming elements is known in advance, so the buffer is
    /// grown once, to its final size, and every element then moves into its
    /// slot: no capacity is left unused.
    pub fn extend(&mut self, items: Vec<T>)
        requires
            old(self)@.len() + items@.len() <= usize::MAX,
        ensures
            final(self)@ == old(self)@ + items@,
    {
        let ghost before = self@;
        let ghost incoming = items@;
        let num_remaining = items.len();
        let start = self.data.len();
        if num_remaining > 0 {
            self.resize(start + num_remaining);
        }
        // Turn the items around so that they can be taken from the back in order.
        let mut source = items;
        let mut pending: Vec<T> = Vec::with_capacity(num_remaining);
        while source.len() > 0
            invariant
                pending@.len() + source@.len() == incoming.len(),
                source@ == incoming.take(source@.len() as int),
                forall|j: int|
                    0 <= j < pending@.len() ==> pending@[j] == incoming[incoming.len() - 1 - j],
            decreases source@.len(),
        {
            if let Some(item) = source.pop() {
                pending.push(item);
            }
        }
        let mut cur_idx: usize = start;
        while pending.len() > 0
            invariant
                start == before.len(),
                start + incoming.len() <= usize::MAX,
                start <= cur_idx,
                cur_idx - start + pending@.len() == incoming.len(),
                self@.len() == cur_idx + pending@.len(),
                self@.take(cur_idx as int) == before + incoming.take(cur_idx - start),
                forall|j: int|
                    0 <= j < pending@.len() ==> pending@[j] == incoming[incoming.len() - 1 - j],
            decreases pending@.len(),
        {
            let ghost prefix = self@.take(cur_idx as int);
            if let Some(item) = pending.pop() {
                self.data.set(cur_idx, item);
                cur_idx += 1;
                assert(self@.take(cur_idx as int) =~= prefix.push(item));
                assert(incoming.take(cur_idx - start) =~= incoming.take(cur_idx - start - 1).push(item));
            }
        }
        assert(self@ =~= self@.take(cur_idx as int));
        assert(incoming =~= incoming.take(cur_idx - start));
    }

    /// Builds a sequence holding the elements of `v`, in order.
    pub fn from_vec(v: Vec<T>) -> (r: Self)
        ensures
            r@ == v@,
    {
        let mut seq = Sequence::new(0);
        let n = v.len();
        assert(seq@.len() + v@.len() == n);
        seq.extend(v);
        assert(seq@ =~= v@);
        seq
    }

    /// Builds a sequence holding copies of the elements of `slice`, in order.
    pub fn from_slice(slice: &[T]) -> (r: Self) where T: Copy
        ensures
            r@ == slice@,
    {
        let mut seq = Sequence::new(slice.len());
        seq.copy_from_slice(slice);
        seq
    }

    /// Collects what is left in `it` into a new sequence, in order.
    pub fn from_iter(it: SequenceIterator<T>) -> (r: Self)
        ensures
            r@ == it.remaining(),
    {
        let ghost all = it.remaining();
        let mut it = it;
        let mut items: Vec<T> = Vec::with_capacity(it.len());
        let mut done = false;
        while !done
            invariant
                all == items@ + it.remaining(),
                done ==> it.remaining().len() == 0,
            decreases it.remaining().len() + if done { 0int } else { 1int },
        {
            match it.next() {
                Some(elem) => {
                    items.push(elem);
                },
                None => {
                    done = true;
                },
            }
        }
        assert(items@ =~= all);
        Sequence::from_vec(items)
    }

    /// Consumes the sequence into an iterator over its elements, in order.
    pub fn into_iter(self) -> (r: SequenceIterator<T>)
        ensures
            r.remaining() == self@,
    {
        SequenceIterator { seq: self, idx: 0 }
    }
}

impl<T: SequenceAlloc> Clone for Sequence<T> {
    /// A new sequence with its own buffer and the same elements, copied by
    /// the backend.
    fn clone(&self) -> (r: Self)
        ensures
            r@ == self@,
    {
        let mut seq = Self::default();
        T::sequence_copy(self, &mut seq);
        seq
    }
}

/// Whether `a` and `b` have equal elements pairwise, compared by `==`.
fn slices_eq<T: PartialEq>(a: &[T], b: &[T]) -> (r: bool)
    ensures
        T::obeys_eq_spec() ==> r == pairwise_eq(a@, b@),
{
    if a.len() != b.len() {
        return false;
    }
    let mut i: usize = 0;
    while i < a.len()
        invariant
            a@.len() == b@.len(),
            i <= a@.len(),
            T::obeys_eq_spec() ==> forall|j: int| 0 <= j < i ==> a@[j].eq_spec(&b@[j]),
        decreases a@.len() - i,
    {
        if !(a[i] == b[i]) {
            return false;
        }
        i += 1;
    }
    true
}

/// Compares `a` and `b` lexicographically, by `partial_cmp` on the elements.
fn slices_cmp<T: PartialOrd>(a: &[T], b: &[T]) -> (r: Option<Ordering>)
    ensures
        T::obeys_partial_cmp_spec() ==> r == lex_cmp(a@, b@),
{
    let mut i: usize = 0;
    assert(a@.skip(0) =~= a@);
    assert(b@.skip(0) =~= b@);
    while i < a.len() && i < b.len()
        invariant
            i <= a@.len(),
            i <= b@.len(),
            T::obeys_partial_cmp_spec() ==> lex_cmp(a@, b@) == lex_cmp(
                a@.skip(i as int),
                b@.skip(i as int),
            ),
        decreases a@.len() - i,
    {
        let c = a[i].partial_cmp(&b[i]);
        proof {
            assert(a@.skip(i as int)[0] == a@[i as int]);
            assert(b@.skip(i as int)[0] == b@[i as int]);
            assert(a@.skip(i as int).drop_first() =~= a@.skip(i + 1));
            assert(b@.skip(i as int).drop_first() =~= b@.skip(i + 1));
        }
        match c {
            Some(Ordering::Equal) => {},
            _ => {
                return c;
            },
        }
        i += 1;
    }
    if a.len() < b.len() {
        Some(Ordering::Less)
    } else if a.len() > b.len() {
        Some(Ordering::Greater)
    } else {
        Some(Ordering::Equal)
    }
}

/// Two sequences are equal when they have the same length and equal elements
/// in the same order, whatever their buffers.
impl<T: PartialEq> PartialEq for Sequence<T> {
    fn eq(&self, other: &Self) -> (r: bool) {
        slices_eq(self.data.as_slice(), other.data.as_slice())
    }
}

impl<T: PartialEq> vstd::std_specs::cmp::PartialEqSpecImpl for Sequence<T> {
    open spec fn obeys_eq_spec() -> bool {
        T::obeys_eq_spec()
    }

    open spec fn eq_spec(&self, other: &Self) -> bool {
        pairwise_eq(self@, other@)
    }
}

impl<T: Eq> Eq for Sequence<T> {

}

/// Sequences are ordered lexicographically by their elements.
impl<T: PartialOrd> PartialOrd for Sequence<T> {
    fn partial_cmp(&self, other: &Self) -> (r: Option<Ordering>) {
        slices_cmp(self.data.as_slice(), other.data.as_slice())
    }
}

impl<T: PartialOrd> vstd::std_specs::cmp::PartialOrdSpecImpl for Sequence<T> {
    open spec fn obeys_partial_cmp_spec() -> bool {
        T::obeys_partial_cmp_spec()
    }

    open spec fn partial_cmp_spec(&self, other: &Self) -> Option<Ordering> {
        lex_cmp(self@, other@)
    }
}

/// A by-value iterator over a consumed sequence. Each element is moved out
/// as it is handed over, and its slot is refilled with the zero value, so
/// that releasing the rest of the buffer never touches it again.
pub struct SequenceIterator<T> {
    seq: Sequence<T>,
    idx: usize,
}

impl<T> SequenceIterator<T> {
    /// The elements not yet handed out, in order.
    pub closed spec fn remaining(&self) -> Seq<T> {
        if self.idx <= self.seq@.len() {
            self.seq@.skip(self.idx as int)
        } else {
            Seq::empty()
        }
    }
}

impl<T: SequenceAlloc> SequenceIterator<T> {
    /// Hands out the next element; once all are handed out, `None` on every
    /// call.
    pub fn next(&mut self) -> (r: Option<T>)
        ensures
            old(self).remaining().len() == 0 ==> r is None && final(self).remaining()
                == old(self).remaining(),
            old(self).remaining().len() > 0 ==> r == Some(old(self).remaining()[0])
                && final(self).remaining() == old(self).remaining().drop_first(),
    {
        if self.idx >= self.seq.data.len() {
            return None;
        }
        let mut elem = T::zeroed();
        self.seq.data.set_and_swap(self.idx, &mut elem);
        self.idx = self.idx + 1;
        assert(self.remaining() =~= old(self).remaining().drop_first());
        Some(elem)
    }

    /// The number of elements still to come.
    pub fn len(&self) -> (r: usize)
        ensures
            r == self.remaining().len(),
    {
        if self.idx >= self.seq.data.len() {
            0
        } else {
            self.seq.data.len() - self.idx
        }
    }

    /// Lower and upper bound of the number of elements still to come; both
    /// are exact.
    pub fn size_hint(&self) -> (r: (usize, Option<usize>))
        ensures
            r.0 == self.remaining().len(),
            r.1 == Some(r.0),
    {
        let n = self.len();
        (n, Some(n))
    }
}

} // verus!
