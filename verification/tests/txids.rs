use mocknet::txid::{derive_txid, push_decimal, txid_text};

fn decimal(n: u64) -> Vec<u8> {
    let mut out = Vec::new();
    push_decimal(&mut out, n);
    out
}

#[test]
fn decimal_of_zero_is_one_digit() {
    assert_eq!(decimal(0), b"0".to_vec());
}

#[test]
fn decimal_of_single_digits() {
    assert_eq!(decimal(7), b"7".to_vec());
    assert_eq!(decimal(9), b"9".to_vec());
}

#[test]
fn decimal_of_round_numbers_keeps_inner_zeros() {
    assert_eq!(decimal(10), b"10".to_vec());
    assert_eq!(decimal(1000), b"1000".to_vec());
    assert_eq!(decimal(10203), b"10203".to_vec());
}

#[test]
fn decimal_of_the_largest_number() {
    assert_eq!(decimal(u64::MAX), b"18446744073709551615".to_vec());
    assert_eq!(decimal(u32::MAX as u64), b"4294967295".to_vec());
}

#[test]
fn decimal_is_appended_to_what_is_there() {
    let mut out = b"height=".to_vec();
    push_decimal(&mut out, 123);
    assert_eq!(out, b"height=123".to_vec());
    out.push(b';');
    push_decimal(&mut out, 45);
    assert_eq!(out, b"height=123;45".to_vec());
}

#[test]
fn decimal_agrees_with_the_standard_formatting() {
    for n in [0u64, 1, 9, 10, 11, 99, 100, 101, 999, 65_535, 65_536, 1_234_567_890_123] {
        assert_eq!(decimal(n), format!("{}", n).into_bytes());
    }
}

#[test]
fn txid_of_first_operation_of_first_block() {
    // SHA-256 of "1::1".
    let expected: [u8; 32] = [
        0xa1, 0x75, 0x65, 0xbb, 0x82, 0x7d, 0x64, 0x66, 0xff, 0xcb, 0xef, 0x8b, 0xc0, 0xbd, 0xd6,
        0x50, 0xa1, 0x2a, 0xfa, 0x5c, 0x69, 0x14, 0xdd, 0x00, 0xc4, 0xc8, 0xc7, 0x76, 0x02, 0x66,
        0x08, 0x27,
    ];
    assert_eq!(derive_txid(1, 1), expected);
}

#[test]
fn txid_of_second_operation_of_first_block() {
    // SHA-256 of "1::2".
    let expected: [u8; 32] = [
        0xa7, 0xe2, 0x02, 0x3a, 0x4d, 0x4b, 0xdd, 0x47, 0x55, 0xa6, 0x21, 0x4d, 0xa2, 0x39, 0x18,
        0x5d, 0x0b, 0x4b, 0x9c, 0xab, 0xd6, 0xc6, 0x86, 0x14, 0x29, 0x02, 0xb3, 0xcd, 0x82, 0x08,
        0xa0, 0x4f,
    ];
    assert_eq!(derive_txid(1, 2), expected);
}

#[test]
fn txid_at_the_largest_height_and_position() {
    // SHA-256 of "18446744073709551615::4294967295".
    let expected: [u8; 32] = [
        0x09, 0xec, 0xb5, 0xb5, 0x0e, 0xfe, 0xd6, 0xe1, 0xec, 0x75, 0x27, 0xbe, 0x40, 0x00, 0x2a,
        0x9b, 0xdb, 0xc3, 0x74, 0xc7, 0xb1, 0xef, 0x8d, 0x12, 0x62, 0xd5, 0x8d, 0x0e, 0x19, 0x3f,
        0x9a, 0xb9,
    ];
    assert_eq!(derive_txid(u64::MAX, u32::MAX), expected);
}

#[test]
fn txids_differ_between_positions_and_between_heights() {
    assert_ne!(derive_txid(1, 1), derive_txid(1, 2));
    assert_ne!(derive_txid(1, 1), derive_txid(2, 1));
    // "1::11" and "11::1" are different texts.
    assert_ne!(derive_txid(1, 11), derive_txid(11, 1));
    assert_ne!(derive_txid(12, 3), derive_txid(1, 23));
}

#[test]
fn txid_is_the_same_when_derived_twice() {
    assert_eq!(derive_txid(8, 1), derive_txid(8, 1));
    // SHA-256 of "8::1".
    let expected: [u8; 32] = [
        0x69, 0x15, 0x3b, 0xbd, 0x1a, 0xfb, 0x41, 0x01, 0x59, 0x96, 0x4e, 0x61, 0xff, 0xdb, 0xbc,
        0x08, 0x8f, 0xb4, 0x36, 0x28, 0xf3, 0xe9, 0x84, 0xd7, 0x86, 0x46, 0xce, 0x18, 0xf2, 0x25,
        0x99, 0x59,
    ];
    assert_eq!(derive_txid(8, 1), expected);
}

#[test]
fn txid_text_is_height_two_colons_position() {
    assert_eq!(txid_text(1, 1), b"1::1".to_vec());
    assert_eq!(txid_text(0, 1), b"0::1".to_vec());
    assert_eq!(txid_text(120, 34), b"120::34".to_vec());
    assert_eq!(txid_text(u64::MAX, u32::MAX), b"18446744073709551615::4294967295".to_vec());
}

#[test]
fn txid_texts_of_different_positions_differ() {
    assert_ne!(txid_text(1, 11), txid_text(11, 1));
    assert_ne!(txid_text(12, 3), txid_text(1, 23));
    assert_ne!(txid_text(10, 1), txid_text(1, 1));
}
