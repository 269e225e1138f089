use rxfetch::arrayvec::ArrayVec;

#[test]
fn push_into_full_buffer_returns_element() {
    let mut v: ArrayVec<u32, 4> = ArrayVec::new();
    for i in 0..4u32 {
        assert_eq!(v.try_push(i), Ok(()));
    }
    assert!(v.is_full());
    assert_eq!(v.try_push(99), Err(99));
    assert_eq!(v.len(), 4);
    assert_eq!(v.as_slice(), &[0, 1, 2, 3]);
}

#[test]
fn push_drops_when_full() {
    let mut v: ArrayVec<u8, 2> = ArrayVec::new();
    v.push(1);
    v.push(2);
    v.push(3);
    assert_eq!(v.as_slice(), &[1, 2]);
}

#[test]
fn pop_returns_last_then_none() {
    let mut v: ArrayVec<u8, 3> = ArrayVec::new();
    assert_eq!(v.pop(), None);
    v.push(7);
    v.push(8);
    assert_eq!(v.pop(), Some(8));
    assert_eq!(v.pop(), Some(7));
    assert_eq!(v.pop(), None);
    assert!(v.is_empty());
}

#[test]
fn spare_capacity_and_flags() {
    let mut v: ArrayVec<u8, 3> = ArrayVec::default();
    assert!(v.is_empty());
    assert!(!v.is_full());
    assert_eq!(v.spare_capacity(), 3);
    v.push(1);
    assert_eq!(v.spare_capacity(), 2);
    assert!(!v.is_empty());
    v.clear();
    assert!(v.is_empty());
    assert_eq!(v.spare_capacity(), 3);
}

#[test]
fn zero_capacity_buffer_rejects_everything() {
    let mut v: ArrayVec<u8, 0> = ArrayVec::new();
    assert!(v.is_full());
    assert!(v.is_empty());
    assert_eq!(v.try_push(5), Err(5));
}

#[test]
fn copy_from_slice_truncates_silently() {
    let mut v: ArrayVec<u8, 4> = ArrayVec::new();
    v.push(9);
    v.copy_from_slice(&[1, 2, 3, 4, 5, 6]);
    assert_eq!(v.as_slice(), &[9, 1, 2, 3]);
    v.copy_from_slice(&[7]);
    assert_eq!(v.as_slice(), &[9, 1, 2, 3]);
}

#[test]
fn copy_from_short_slice_copies_all() {
    let mut v: ArrayVec<u8, 8> = ArrayVec::new();
    v.copy_from_slice(&[1, 2]);
    v.copy_from_slice(&[]);
    v.copy_from_slice(&[3]);
    assert_eq!(v.as_slice(), &[1, 2, 3]);
}

#[test]
fn extend_keeps_order_and_stops_at_capacity() {
    let mut v: ArrayVec<String, 3> = ArrayVec::new();
    v.push("a".to_string());
    v.extend(vec!["b".to_string(), "c".to_string(), "d".to_string()]);
    assert_eq!(v.as_slice(), &["a".to_string(), "b".to_string(), "c".to_string()]);
}

#[test]
fn from_iter_takes_first_elements() {
    let v: ArrayVec<u8, 2> = ArrayVec::from_iter(vec![4, 5, 6]);
    assert_eq!(v.as_slice(), &[4, 5]);
}

#[test]
fn into_iter_hands_out_in_order() {
    let mut v: ArrayVec<u8, 4> = ArrayVec::new();
    v.extend(vec![1, 2, 3]);
    let mut it = v.into_iter();
    assert_eq!(it.next(), Some(1));
    assert_eq!(it.next(), Some(2));
    assert_eq!(it.next(), Some(3));
    assert_eq!(it.next(), None);
    assert_eq!(it.next(), None);
}
