use otter::types::{BinaryBuf, BinaryBuilder};

#[test]
fn new_buffer_is_empty_without_allocation() {
    let b = BinaryBuf::new();
    assert_eq!(b.len(), 0);
    assert!(b.is_empty());
    assert_eq!(b.capacity(), 0);
    assert_eq!(b.as_bytes(), &[] as &[u8]);
}

#[test]
fn push_grows_to_the_larger_of_required_and_double() {
    let mut b = BinaryBuf::new();
    b.push(1);
    assert_eq!(b.capacity(), 1);
    b.push(2);
    assert_eq!(b.capacity(), 2);
    b.push(3);
    assert_eq!(b.capacity(), 4);
    b.extend_from_slice(&[4, 5, 6, 7, 8, 9]);
    assert_eq!(b.capacity(), 9);
    assert_eq!(b.as_bytes(), &[1, 2, 3, 4, 5, 6, 7, 8, 9]);
}

#[test]
fn reserve_within_capacity_keeps_it() {
    let mut b = BinaryBuf::with_capacity(10);
    b.reserve(10);
    assert_eq!(b.capacity(), 10);
    b.reserve(11);
    assert_eq!(b.capacity(), 20);
}

#[test]
fn resize_fills_or_truncates() {
    let mut b = BinaryBuf::with_capacity(2);
    b.resize(4, 0xaa);
    assert_eq!(b.as_bytes(), &[0xaa; 4]);
    assert_eq!(b.capacity(), 4);
    b.resize(1, 0);
    assert_eq!(b.as_bytes(), &[0xaa]);
    assert_eq!(b.capacity(), 4);
}

#[test]
fn write_takes_every_byte_and_into_bytes_yields_them() {
    let mut b = BinaryBuf::new();
    assert_eq!(b.write(b"hello"), 5);
    b.set(0, b'j');
    assert_eq!(b.into_bytes(), b"jello".to_vec());
    let f = BinaryBuf::from_filled(vec![1, 2, 3]);
    assert_eq!(f.len(), 3);
    assert_eq!(f.capacity(), 3);
}

#[test]
fn binary_builder_tracks_len_and_capacity() {
    let mut b = BinaryBuilder::new();
    assert!(b.is_empty());
    assert_eq!(b.capacity(), 0);
    b.extend_from_slice(b"abc");
    b.push(b'd');
    assert_eq!(b.len(), 4);
    assert_eq!(b.capacity(), 6);
    assert_eq!(b.as_slice(), b"abcd");
    let mut c = BinaryBuilder::with_capacity(8);
    c.resize(3, 7);
    assert_eq!(c.capacity(), 8);
    assert_eq!(c.into_bytes(), vec![7, 7, 7]);
}

#[test]
fn builder_shrink_keeps_the_capacity() {
    let mut b = BinaryBuilder::new();
    b.extend_from_slice(&[1, 2]);
    b.resize(4, 9);
    assert_eq!(b.as_slice(), &[1, 2, 9, 9]);
    let cap = b.capacity();
    b.resize(1, 0);
    assert_eq!(b.as_slice(), &[1]);
    assert_eq!(b.len(), 1);
    assert_eq!(b.capacity(), cap);
}
