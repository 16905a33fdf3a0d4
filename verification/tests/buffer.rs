use azul_shell::buffer::{ForeignVec, GLintVec, GLuintVec, ScanCodeVec, U32Vec, U8Vec};

#[test]
fn new_buffer_is_empty_without_room() {
    let buffer = U8Vec::new();
    assert_eq!(buffer.len(), 0);
    assert_eq!(buffer.capacity(), 0);
    assert!(buffer.is_empty());
    assert_eq!(buffer.get(0), None);
    assert_eq!(buffer.as_slice(), &[] as &[u8]);
}

#[test]
fn buffer_with_capacity_is_empty_with_room() {
    let buffer = U32Vec::with_capacity(16);
    assert_eq!(buffer.len(), 0);
    assert_eq!(buffer.capacity(), 16);
    assert!(buffer.is_empty());
}

#[test]
fn copy_from_copies_the_elements() {
    let source = [3u8, 1, 4, 1, 5];
    let buffer = U8Vec::copy_from(&source);
    assert_eq!(buffer.len(), 5);
    assert_eq!(buffer.capacity(), 5);
    assert!(!buffer.is_empty());
    assert_eq!(buffer.as_slice(), &source);
    assert_eq!(buffer.get(0), Some(&3));
    assert_eq!(buffer.get(4), Some(&5));
    assert_eq!(buffer.get(5), None);
    assert_eq!(buffer.get(usize::MAX), None);
    let none = GLintVec::copy_from(&[]);
    assert!(none.is_empty());
    assert_eq!(none.capacity(), 0);
}

#[test]
fn deep_copy_is_independent_and_equal() {
    let buffer = GLuintVec::copy_from(&[7, 8, 9]);
    let copy = buffer.deep_copy();
    assert_eq!(copy.as_slice(), buffer.as_slice());
    assert_eq!(copy.capacity(), buffer.capacity());
    let elements = buffer.into_vec();
    assert_eq!(elements, vec![7, 8, 9]);
    assert_eq!(copy.as_slice(), &[7, 8, 9]);
    let roomy = ScanCodeVec::with_capacity(4).deep_copy();
    assert_eq!(roomy.capacity(), 4);
    assert!(roomy.is_empty());
}

#[test]
fn buffer_round_trips_through_a_vector() {
    let buffer: ForeignVec<i32> = ForeignVec::from_vec(vec![-1, 0, 1]);
    assert_eq!(buffer.len(), 3);
    assert_eq!(buffer.capacity(), 3);
    assert_eq!(buffer.get(1), Some(&0));
    assert_eq!(buffer.into_vec(), vec![-1, 0, 1]);
}
