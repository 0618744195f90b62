use auctioneer::primitives::{bytes_equal, u64_from_be_prefix, u64_to_be_bytes};

#[test]
fn integers_are_written_most_significant_byte_first() {
    assert_eq!(u64_to_be_bytes(0x0102_0304_0506_0708), [1, 2, 3, 4, 5, 6, 7, 8]);
    assert_eq!(u64_to_be_bytes(0), [0; 8]);
    assert_eq!(u64_to_be_bytes(u64::MAX), [0xff; 8]);
    assert_eq!(u64_to_be_bytes(30_000_000), 30_000_000u64.to_be_bytes());
}

#[test]
fn hash_prefix_is_read_most_significant_byte_first() {
    let mut hash = [0u8; 32];
    for (i, byte) in hash.iter_mut().enumerate() {
        *byte = (i + 1) as u8;
    }
    assert_eq!(u64_from_be_prefix(&hash), 0x0102_0304_0506_0708);
    assert_eq!(u64_from_be_prefix(&[0xff; 32]), u64::MAX);
    assert_eq!(u64_from_be_prefix(&[0; 32]), 0);
}

#[test]
fn writing_then_reading_gives_the_integer_back() {
    for x in [0u64, 1, 255, 256, 0xdead_beef, u64::MAX - 1, u64::MAX] {
        let mut hash = [0u8; 32];
        hash[..8].copy_from_slice(&u64_to_be_bytes(x));
        assert_eq!(u64_from_be_prefix(&hash), x);
    }
}

#[test]
fn byte_strings_compare_by_content() {
    let a = [7u8; 20];
    let mut b = [7u8; 20];
    assert!(bytes_equal(&a, &b));
    b[19] = 8;
    assert!(!bytes_equal(&a, &b));
    b[19] = 7;
    b[0] = 0;
    assert!(!bytes_equal(&a, &b));
    assert!(bytes_equal(&[0u8; 0], &[0u8; 0]));
}
