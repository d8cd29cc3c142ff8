use std::cmp::Ordering;
use std::collections::hash_map::DefaultHasher;
use std::hash::{Hash, Hasher};

use rosidl_runtime_rs::{BoundedSequence, Sequence, SequenceIterator};

fn seq_of(xs: &[i32]) -> Sequence<i32> {
    let mut s = Sequence::<i32>::new(xs.len());
    s.as_mut_slice().copy_from_slice(xs);
    s
}

#[test]
fn new_then_assign_and_default_is_empty() {
    let mut list = Sequence::<i32>::new(3);
    assert_eq!(list.as_slice(), &[0, 0, 0]);
    list.as_mut_slice()[0] = 3;
    list.as_mut_slice()[1] = 2;
    list.as_mut_slice()[2] = 1;
    assert_eq!(list.as_slice(), &[3, 2, 1]);
    let empty = Sequence::<i32>::default();
    assert_eq!(empty.as_slice(), &[] as &[i32]);
    assert!(empty.is_empty());
    assert!(empty.as_slice().is_empty());
}

#[test]
fn new_zero_fills_every_element_type() {
    assert_eq!(Sequence::<bool>::new(2).as_slice(), &[false, false]);
    assert_eq!(Sequence::<u8>::new(2).as_slice(), &[0u8, 0]);
    assert_eq!(Sequence::<i8>::new(1).as_slice(), &[0i8]);
    assert_eq!(Sequence::<u16>::new(1).as_slice(), &[0u16]);
    assert_eq!(Sequence::<i16>::new(1).as_slice(), &[0i16]);
    assert_eq!(Sequence::<u32>::new(1).as_slice(), &[0u32]);
    assert_eq!(Sequence::<u64>::new(1).as_slice(), &[0u64]);
    assert_eq!(Sequence::<i64>::new(4).len(), 4);
    assert!(Sequence::<u8>::new(0).is_empty());
}

#[test]
fn extend_appends_after_existing_elements() {
    let xs = vec![5, -1, 7];
    let ys = vec![9, 8];
    let mut s = seq_of(&xs);
    s.extend(ys.clone());
    assert_eq!(s.len(), xs.len() + ys.len());
    assert_eq!(&s.as_slice()[..xs.len()], &xs[..]);
    assert_eq!(&s.as_slice()[xs.len()..], &ys[..]);
}

#[test]
fn extend_with_nothing_and_onto_empty() {
    let mut s = seq_of(&[1, 2]);
    s.extend(Vec::new());
    assert_eq!(s.as_slice(), &[1, 2]);
    let mut e = Sequence::<i32>::default();
    e.extend(vec![4, 5, 6]);
    assert_eq!(e.as_slice(), &[4, 5, 6]);
    let mut twice = Sequence::<i32>::new(0);
    twice.extend(vec![1]);
    twice.extend(vec![2, 3]);
    assert_eq!(twice.as_slice(), &[1, 2, 3]);
}

#[test]
fn clone_is_equal_and_independent() {
    let mut a = seq_of(&[3, 1, 4]);
    let b = a.clone();
    assert_eq!(b.as_slice(), &[3, 1, 4]);
    assert!(a == b);
    a.as_mut_slice()[0] = 100;
    assert_eq!(b.as_slice(), &[3, 1, 4]);
    assert_eq!(a.as_slice(), &[100, 1, 4]);
    let mut c = b.clone();
    c.extend(vec![1]);
    assert_eq!(b.len(), 3);
    assert!(Sequence::<u8>::default().clone().is_empty());
}

#[test]
fn iteration_yields_elements_in_order_then_nothing() {
    let s = seq_of(&[10, 20, 30]);
    let mut it: SequenceIterator<i32> = s.into_iter();
    assert_eq!(it.len(), 3);
    assert_eq!(it.size_hint(), (3, Some(3)));
    assert_eq!(it.next(), Some(10));
    assert_eq!(it.len(), 2);
    assert_eq!(it.next(), Some(20));
    assert_eq!(it.next(), Some(30));
    assert_eq!(it.len(), 0);
    assert_eq!(it.size_hint(), (0, Some(0)));
    assert_eq!(it.next(), None);
    assert_eq!(it.next(), None);
    assert_eq!(it.len(), 0);
}

#[test]
fn iteration_of_empty_sequence() {
    let mut it = Sequence::<i32>::default().into_iter();
    assert_eq!(it.size_hint(), (0, Some(0)));
    assert_eq!(it.next(), None);
}

#[test]
fn collecting_an_iterator_gives_the_same_sequence() {
    let s1 = seq_of(&[7, 8, 9, 10]);
    let s2 = Sequence::from_iter(s1.clone().into_iter());
    assert!(s1 == s2);
    let mut it = s1.clone().into_iter();
    it.next();
    let rest = Sequence::from_iter(it);
    assert_eq!(rest.as_slice(), &[8, 9, 10]);
}

#[test]
fn conversions_from_vec_and_slice() {
    let v = Sequence::from_vec(vec![1u16, 2, 3]);
    assert_eq!(v.as_slice(), &[1, 2, 3]);
    let s = Sequence::from_slice(&[true, false]);
    assert_eq!(s.as_slice(), &[true, false]);
    assert!(Sequence::<i64>::from_vec(Vec::new()).is_empty());
}

#[test]
fn resize_to_at_least_grows_with_zeros_only() {
    let mut s = seq_of(&[4, 5]);
    s.resize_to_at_least(4);
    assert_eq!(s.as_slice(), &[4, 5, 0, 0]);
    s.resize_to_at_least(1);
    assert_eq!(s.as_slice(), &[4, 5, 0, 0]);
    let mut e = Sequence::<u8>::default();
    e.resize_to_at_least(2);
    assert_eq!(e.as_slice(), &[0, 0]);
}

#[test]
fn equality_is_elementwise() {
    assert!(seq_of(&[1, 2, 3]) == seq_of(&[1, 2, 3]));
    assert!(seq_of(&[1, 2, 3]) != seq_of(&[1, 2, 4]));
    assert!(seq_of(&[1, 2]) != seq_of(&[1, 2, 3]));
    assert!(Sequence::<i32>::default() == Sequence::<i32>::new(0));
    let mut grown = seq_of(&[1]);
    grown.extend(vec![2]);
    assert!(grown == seq_of(&[1, 2]));
}

#[test]
fn ordering_is_lexicographic() {
    assert_eq!(seq_of(&[1, 2, 3]).partial_cmp(&seq_of(&[1, 3, 0])), Some(Ordering::Less));
    assert_eq!(seq_of(&[2]).partial_cmp(&seq_of(&[1, 9, 9])), Some(Ordering::Greater));
    assert_eq!(seq_of(&[1, 2]).partial_cmp(&seq_of(&[1, 2, 0])), Some(Ordering::Less));
    assert_eq!(seq_of(&[1, 2]).partial_cmp(&seq_of(&[1, 2])), Some(Ordering::Equal));
    assert!(seq_of(&[0, 5]) < seq_of(&[1]));
    assert!(seq_of(&[]) < seq_of(&[-7]));
}

#[test]
fn bounded_literal_construction_then_truncating_extend() {
    let mut list = BoundedSequence::<i32, 5>::new(3);
    list.as_mut_slice()[0] = 3;
    list.as_mut_slice()[1] = 2;
    list.as_mut_slice()[2] = 1;
    assert_eq!(list.len(), 3);
    assert_eq!(list.as_slice(), &[3, 2, 1]);
    list.extend(vec![4, 5]);
    assert_eq!(list.as_slice(), &[3, 2, 1, 4, 5]);
    list.extend(vec![6]);
    assert_eq!(list.as_slice(), &[3, 2, 1, 4, 5]);
    assert!(BoundedSequence::<i32, 5>::default().is_empty());
}

#[test]
fn bounded_extend_keeps_only_what_fits() {
    let mut b = BoundedSequence::<u8, 4>::try_from_vec(vec![1, 2]).unwrap();
    b.extend(vec![3, 4, 5, 6]);
    assert_eq!(b.as_slice(), &[1, 2, 3, 4]);
}

#[test]
fn bounded_from_source_at_and_over_the_bound() {
    let ok = BoundedSequence::<i32, 3>::try_from_vec(vec![7, 8, 9]).unwrap();
    assert_eq!(ok.as_slice(), &[7, 8, 9]);
    let err = BoundedSequence::<i32, 3>::try_from_vec(vec![1, 2, 3, 4]).unwrap_err();
    assert_eq!(err.len, 4);
    assert_eq!(err.upper_bound, 3);
    let from_slice = BoundedSequence::<i32, 3>::try_from_slice(&[1, 2, 3]).unwrap();
    assert_eq!(from_slice.as_slice(), &[1, 2, 3]);
    let slice_err = BoundedSequence::<i32, 3>::try_from_slice(&[1, 2, 3, 4]).unwrap_err();
    assert_eq!((slice_err.len, slice_err.upper_bound), (4, 3));
    let mut full = ok.clone();
    full.extend(vec![1, 2]);
    assert!(full == ok);
}

#[test]
fn bounded_try_new_and_error_message() {
    let s = BoundedSequence::<u32, 2>::try_new(2).unwrap();
    assert_eq!(s.as_slice(), &[0, 0]);
    let e = BoundedSequence::<u32, 2>::try_new(3).unwrap_err();
    assert_eq!((e.len, e.upper_bound), (3, 2));
    assert_eq!(
        e.to_string(),
        "BoundedSequence with upper bound 2 initialized with len 3"
    );
}

#[test]
fn bounded_iteration_and_comparison() {
    let b = BoundedSequence::<i16, 8>::try_from_slice(&[4, 5]).unwrap();
    let c = b.clone();
    let mut it = b.into_iter();
    assert_eq!(it.next(), Some(4));
    assert_eq!(it.next(), Some(5));
    assert_eq!(it.next(), None);
    let d = BoundedSequence::<i16, 8>::try_from_slice(&[4, 6]).unwrap();
    assert!(c < d);
    assert!(c != d);
}

fn hash_of<H: Hash>(x: &H) -> u64 {
    let mut h = DefaultHasher::new();
    x.hash(&mut h);
    h.finish()
}

#[test]
fn total_order_and_hash_follow_the_elements() {
    let mut v = vec![seq_of(&[2]), seq_of(&[1, 5]), seq_of(&[1])];
    v.sort();
    assert_eq!(v[0].as_slice(), &[1]);
    assert_eq!(v[1].as_slice(), &[1, 5]);
    assert_eq!(v[2].as_slice(), &[2]);
    assert_eq!(seq_of(&[3, 4]).cmp(&seq_of(&[3, 4])), Ordering::Equal);
    let mut grown = seq_of(&[9]);
    grown.extend(vec![8]);
    assert_eq!(hash_of(&grown), hash_of(&seq_of(&[9, 8])));
    let b1 = BoundedSequence::<i32, 4>::try_from_slice(&[1, 2]).unwrap();
    let b2 = BoundedSequence::<i32, 4>::try_from_vec(vec![1, 2]).unwrap();
    assert_eq!(hash_of(&b1), hash_of(&b2));
    assert_eq!(b1.cmp(&b2), Ordering::Equal);
}
