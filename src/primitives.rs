use vstd::prelude::*;

use crate::sequence::Sequence;
use crate::traits::SequenceAlloc;

verus! {

// Plain-value element types: a fresh slot holds zero (`false` for `bool`),
// and copying a sequence copies its values one by one.

impl SequenceAlloc for bool {
    open spec fn zero_value() -> Self {
        false
    }

    fn zeroed() -> (r: Self) {
        false
    }

    fn sequence_init(seq: &mut Sequence<Self>, size: usize) {
        seq.fill_with(size, false)
    }

    fn sequence_fini(seq: &mut Sequence<Self>) {
        seq.release()
    }

    fn sequence_copy(in_seq: &Sequence<Self>, out_seq: &mut Sequence<Self>) {
        out_seq.copy_from(in_seq)
    }
}

impl SequenceAlloc for u8 {
    open spec fn zero_value() -> Self {
        0
    }

    fn zeroed() -> (r: Self) {
        0
    }

    fn sequence_init(seq: &mut Sequence<Self>, size: usize) {
        seq.fill_with(size, 0)
    }

    fn sequence_fini(seq: &mut Sequence<Self>) {
        seq.release()
    }

    fn sequence_copy(in_seq: &Sequence<Self>, out_seq: &mut Sequence<Self>) {
        out_seq.copy_from(in_seq)
    }
}

impl SequenceAlloc for i8 {
    open spec fn zero_value() -> Self {
        0
    }

    fn zeroed() -> (r: Self) {
        0
    }

    fn sequence_init(seq: &mut Sequence<Self>, size: usize) {
        seq.fill_with(size, 0)
    }

    fn sequence_fini(seq: &mut Sequence<Self>) {
        seq.release()
    }

    fn sequence_copy(in_seq: &Sequence<Self>, out_seq: &mut Sequence<Self>) {
        out_seq.copy_from(in_seq)
    }
}

impl SequenceAlloc for u16 {
    open spec fn zero_value() -> Self {
        0
    }

    fn zeroed() -> (r: Self) {
        0
    }

    fn sequence_init(seq: &mut Sequence<Self>, size: usize) {
        seq.fill_with(size, 0)
    }

    fn sequence_fini(seq: &mut Sequence<Self>) {
        seq.release()
    }

    fn sequence_copy(in_seq: &Sequence<Self>, out_seq: &mut Sequence<Self>) {
        out_seq.copy_from(in_seq)
    }
}

impl SequenceAlloc for i16 {
    open spec fn zero_value() -> Self {
        0
    }

    fn zeroed() -> (r: Self) {
        0
    }

    fn sequence_init(seq: &mut Sequence<Self>, size: usize) {
        seq.fill_with(size, 0)
    }

    fn sequence_fini(seq: &mut Sequence<Self>) {
        seq.release()
    }

    fn sequence_copy(in_seq: &Sequence<Self>, out_seq: &mut Sequence<Self>) {
        out_seq.copy_from(in_seq)
    }
}

impl SequenceAlloc for u32 {
    open spec fn zero_value() -> Self {
        0
    }

    fn zeroed() -> (r: Self) {
        0
    }

    fn sequence_init(seq: &mut Sequence<Self>, size: usize) {
        seq.fill_with(size, 0)
    }

    fn sequence_fini(seq: &mut Sequence<Self>) {
        seq.release()
    }

    fn sequence_copy(in_seq: &Sequence<Self>, out_seq: &mut Sequence<Self>) {
        out_seq.copy_from(in_seq)
    }
}

impl SequenceAlloc for i32 {
    open spec fn zero_value() -> Self {
        0
    }

    fn zeroed() -> (r: Self) {
        0
    }

    fn sequence_init(seq: &mut Sequence<Self>, size: usize) {
        seq.fill_with(size, 0)
    }

    fn sequence_fini(seq: &mut Sequence<Self>) {
        seq.release()
    }

    fn sequence_copy(in_seq: &Sequence<Self>, out_seq: &mut Sequence<Self>) {
        out_seq.copy_from(in_seq)
    }
}

impl SequenceAlloc for u64 {
    open spec fn zero_value() -> Self {
        0
    }

    fn zeroed() -> (r: Self) {
        0
    }

    fn sequence_init(seq: &mut Sequence<Self>, size: usize) {
        seq.fill_with(size, 0)
    }

    fn sequence_fini(seq: &mut Sequence<Self>) {
        seq.release()
    }

    fn sequence_copy(in_seq: &Sequence<Self>, out_seq: &mut Sequence<Self>) {
        out_seq.copy_from(in_seq)
    }
}

impl SequenceAlloc for i64 {
    open spec fn zero_value() -> Self {
        0
    }

    fn zeroed() -> (r: Self) {
        0
    }

    fn sequence_init(seq: &mut Sequence<Self>, size: usize) {
        seq.fill_with(size, 0)
    }

    fn sequence_fini(seq: &mut Sequence<Self>) {
        seq.release()
    }

    fn sequence_copy(in_seq: &Sequence<Self>, out_seq: &mut Sequence<Self>) {
        out_seq.copy_from(in_seq)
    }
}

} // verus!
