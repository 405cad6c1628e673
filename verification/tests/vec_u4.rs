use palette::vec_u4::{VecU4, VecU4Error};

#[test]
fn test_push_and_pop() {
    let mut vec = VecU4::new();
    vec.push(5);
    vec.push(10);
    vec.push(15);

    assert_eq!(vec.pop(), Some(15));
    assert_eq!(vec.pop(), Some(10));
    assert_eq!(vec.pop(), Some(5));
    assert_eq!(vec.pop(), None);
}

#[test]
fn test_len_and_is_empty() {
    let mut vec = VecU4::new();
    assert!(vec.is_empty());
    assert_eq!(vec.len(), 0);

    vec.push(1);
    assert!(!vec.is_empty());
    assert_eq!(vec.len(), 1);

    vec.push(2);
    assert_eq!(vec.len(), 2);

    vec.pop();
    assert_eq!(vec.len(), 1);
}

#[test]
fn test_get_and_set() {
    let mut vec = VecU4::new();
    vec.push(3);
    vec.push(7);
    vec.push(11);
    vec.push(15);

    assert_eq!(vec.get(0), Some(3));
    assert_eq!(vec.get(1), Some(7));
    assert_eq!(vec.get(2), Some(11));
    assert_eq!(vec.get(3), Some(15));
    assert_eq!(vec.get(4), None);

    assert!(vec.set(0, 1).is_ok());
    assert!(vec.set(1, 5).is_ok());
    assert!(vec.set(2, 9).is_ok());
    assert!(vec.set(3, 13).is_ok());
    assert!(vec.set(4, 1).is_err());

    assert_eq!(vec.get(0), Some(1));
    assert_eq!(vec.get(1), Some(5));
    assert_eq!(vec.get(2), Some(9));
    assert_eq!(vec.get(3), Some(13));
}

#[test]
fn test_clear() {
    let mut vec = VecU4::new();
    vec.push(1);
    vec.push(2);
    vec.clear();
    assert!(vec.is_empty());
}

#[test]
fn test_with_capacity() {
    let vec = VecU4::with_capacity(10);
    assert!(vec.byte_capacity() >= 5);
}

#[test]
fn with_capacity_starts_empty() {
    let vec = VecU4::with_capacity(7);
    assert!(vec.is_empty());
    assert_eq!(vec.len(), 0);
    assert!(vec.byte_capacity() >= 4);
    assert_eq!(VecU4::with_capacity(usize::MAX % 1024).len(), 0);
}

#[test]
fn zeroed_round_trip() {
    let mut cells = VecU4::zeroed(4096);
    assert_eq!(cells.len(), 4096);
    for i in 0..4096usize {
        assert_eq!(cells.get(i), Some(0));
    }
    for i in 0..4096usize {
        assert_eq!(cells.set(i, (i % 16) as u8), Ok(()));
    }
    for i in 0..4096usize {
        assert_eq!(cells.get(i), Some((i % 16) as u8));
        assert_eq!(cells.get_unchecked(i), (i % 16) as u8);
    }
    let expected: Vec<u8> = (0..4096usize).map(|i| (i % 16) as u8).collect();
    assert_eq!(cells.iter(), expected);
}

#[test]
fn zeroed_of_nothing() {
    let cells = VecU4::zeroed(0);
    assert!(cells.is_empty());
    assert_eq!(cells.get(0), None);
    assert_eq!(cells.iter(), Vec::<u8>::new());
}

#[test]
fn get_past_the_end() {
    let cells = VecU4::zeroed(4096);
    assert_eq!(cells.get(4095), Some(0));
    assert_eq!(cells.get(4096), None);
    assert_eq!(cells.get(usize::MAX), None);
}

#[test]
fn set_out_of_bounds() {
    let mut cells = VecU4::zeroed(2);
    assert_eq!(cells.set(2, 1), Err(VecU4Error::OutOfBounds));
    assert_eq!(cells.set(usize::MAX, 1), Err(VecU4Error::OutOfBounds));
    assert_eq!(cells.iter(), vec![0, 0]);
}

#[test]
fn set_value_too_large() {
    let mut cells = VecU4::zeroed(2);
    assert_eq!(cells.set(0, 16), Err(VecU4Error::ValueTooLarge));
    assert_eq!(cells.set(1, 255), Err(VecU4Error::ValueTooLarge));
    assert_eq!(cells.iter(), vec![0, 0]);
}

#[test]
fn set_checks_the_index_first() {
    let mut cells = VecU4::zeroed(2);
    assert_eq!(cells.set(2, 16), Err(VecU4Error::OutOfBounds));
}

#[test]
fn error_messages() {
    assert_eq!(VecU4Error::OutOfBounds.message(), "Index out of bounds");
    assert_eq!(VecU4Error::ValueTooLarge.message(), "Value must be 4 bits (0-15)");
}

#[test]
fn set_keeps_the_other_nibble() {
    let mut cells = VecU4::zeroed(4);
    cells.set_unchecked(0, 0xA);
    cells.set_unchecked(1, 0x5);
    assert_eq!(cells.iter(), vec![0xA, 0x5, 0, 0]);
    cells.set_unchecked(0, 0x3);
    assert_eq!(cells.iter(), vec![0x3, 0x5, 0, 0]);
    cells.set_unchecked(1, 0xF);
    assert_eq!(cells.iter(), vec![0x3, 0xF, 0, 0]);
    cells.set_unchecked(1, 0);
    assert_eq!(cells.iter(), vec![0x3, 0, 0, 0]);
}

#[test]
fn low_nibble_comes_first() {
    let mut a = VecU4::new();
    a.push(0x1);
    a.push(0x2);
    let mut b = VecU4::zeroed(2);
    assert_ne!(a, b);
    b.set_unchecked(0, 0x1);
    b.set_unchecked(1, 0x2);
    assert_eq!(a, b);
    assert_eq!(a.iter(), vec![0x1, 0x2]);
}

#[test]
fn push_and_pop_zero_nibbles() {
    let mut vec = VecU4::new();
    vec.push(0);
    assert_eq!(vec.len(), 1);
    vec.push(0);
    assert_eq!(vec.len(), 2);
    vec.push(7);
    vec.push(0);
    assert_eq!(vec.len(), 4);
    assert_eq!(vec.iter(), vec![0, 0, 7, 0]);
    assert_eq!(vec.pop(), Some(0));
    assert_eq!(vec.len(), 3);
    assert_eq!(vec.pop(), Some(7));
    assert_eq!(vec.pop(), Some(0));
    assert_eq!(vec.pop(), Some(0));
    assert_eq!(vec.pop(), None);
    assert!(vec.is_empty());
}

#[test]
fn pop_clears_the_spare_nibble() {
    let mut vec = VecU4::new();
    vec.push(4);
    vec.push(9);
    assert_eq!(vec.pop(), Some(9));
    let mut other = VecU4::new();
    other.push(4);
    assert_eq!(vec, other);
    vec.push(2);
    assert_eq!(vec.iter(), vec![4, 2]);
}

#[test]
fn iter_of_an_odd_length() {
    let mut vec = VecU4::new();
    vec.push(1);
    vec.push(2);
    vec.push(3);
    assert_eq!(vec.iter(), vec![1, 2, 3]);
    assert_eq!(vec.get(2), Some(3));
    assert_eq!(vec.get(3), None);
    assert_eq!(vec.set(3, 1), Err(VecU4Error::OutOfBounds));
}

#[test]
fn clear_then_reuse() {
    let mut vec = VecU4::zeroed(8);
    vec.set_unchecked(7, 0xF);
    vec.clear();
    assert_eq!(vec.len(), 0);
    assert_eq!(vec.get(0), None);
    vec.push(6);
    assert_eq!(vec.iter(), vec![6]);
}

#[test]
fn bytes_hold_two_cells_each() {
    let mut cells = VecU4::zeroed(4096);
    assert_eq!(cells.as_bytes(), &[0u8; 2048][..]);
    for i in 0..4096usize {
        cells.set_unchecked(i, (i % 16) as u8);
    }
    let bytes = cells.as_bytes();
    assert_eq!(bytes.len(), 2048);
    for (k, byte) in bytes.iter().enumerate() {
        let low = cells.get_unchecked(2 * k);
        let high = cells.get_unchecked(2 * k + 1);
        assert!(low <= 15 && high <= 15);
        assert_eq!(*byte, low | (high << 4));
    }
    assert_eq!(bytes[0], 0x10);
    assert_eq!(bytes[1], 0x32);
    assert_eq!(bytes[7], 0xFE);
    assert_eq!(bytes[2047], 0xFE);
}

#[test]
fn bytes_of_an_odd_length() {
    let mut vec = VecU4::new();
    assert_eq!(vec.as_bytes(), &[0u8; 0][..]);
    vec.push(0xC);
    assert_eq!(vec.as_bytes(), &[0x0C][..]);
    vec.push(0x3);
    assert_eq!(vec.as_bytes(), &[0x3C][..]);
    vec.push(0xF);
    assert_eq!(vec.as_bytes(), &[0x3C, 0x0F][..]);
    assert_eq!(vec.pop(), Some(0xF));
    assert_eq!(vec.as_bytes(), &[0x3C][..]);
    assert_eq!(vec.pop(), Some(0x3));
    assert_eq!(vec.as_bytes(), &[0x0C][..]);
}

#[test]
fn clone_is_equal() {
    let mut vec = VecU4::zeroed(6);
    vec.set_unchecked(5, 9);
    let copy = vec.clone();
    assert_eq!(copy, vec);
    assert_eq!(copy.iter(), vec![0, 0, 0, 0, 0, 9]);
    assert_eq!(copy.as_bytes(), vec.as_bytes());
}
