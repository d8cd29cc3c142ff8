use vstd::prelude::*;

use crate::sequence::Sequence;

verus! {

/// The allocation backend of an element type: how a sequence of that type
/// gets its buffer filled, released and copied.
///
/// Running out of memory while a buffer is allocated aborts the process, so
/// none of these operations reports a failure to its caller.
pub trait SequenceAlloc: Sized {
    /// The value that a freshly initialised slot holds.
    spec fn zero_value() -> Self;

    /// A fresh value equal to `zero_value()`; it also fills the slots whose
    /// element has been moved out.
    fn zeroed() -> (r: Self)
        ensures
            r == Self::zero_value(),
    ;

    /// Gives `seq` a buffer of `size` elements, each `zero_value()`.
    fn sequence_init(seq: &mut Sequence<Self>, size: usize)
        ensures
            final(seq)@ == Seq::new(size as nat, |i: int| Self::zero_value()),
    ;

    /// Releases the buffer of `seq`, leaving it empty.
    fn sequence_fini(seq: &mut Sequence<Self>)
        ensures
            final(seq)@ == Seq::<Self>::empty(),
    ;

    /// Copies the elements of `in_seq` into `out_seq`, replacing its contents.
    fn sequence_copy(in_seq: &Sequence<Self>, out_seq: &mut Sequence<Self>)
        ensures
            final(out_seq)@ == in_seq@,
    ;
}

} // verus!
