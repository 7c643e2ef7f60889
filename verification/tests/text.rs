use lock_export::text::hex_lower;

#[test]
fn hex_lower_knows_all_sixteen_digits() {
    assert_eq!(
        hex_lower(&[0x01, 0x23, 0x45, 0x67, 0x89, 0xab, 0xcd, 0xef]),
        "0123456789abcdef"
    );
    assert_eq!(
        hex_lower(&[0xfe, 0xdc, 0xba, 0x98, 0x76, 0x54, 0x32, 0x10]),
        "fedcba9876543210"
    );
}

#[test]
fn hex_lower_of_nothing_is_empty() {
    assert_eq!(hex_lower(&[]), "");
}

#[test]
fn hex_lower_writes_high_half_first() {
    assert_eq!(hex_lower(&[0x1f]), "1f");
    assert_eq!(hex_lower(&[0xf1]), "f1");
}

#[test]
fn hex_lower_keeps_leading_zeros_and_lower_case() {
    assert_eq!(hex_lower(&[0x00, 0x0a, 0xab, 0xff, 0x10]), "000aabff10");
}

#[test]
fn hex_lower_of_a_digest_has_two_digits_per_byte() {
    let digest: [u8; 16] = [
        0xd4, 0x1d, 0x8c, 0xd9, 0x8f, 0x00, 0xb2, 0x04, 0xe9, 0x80, 0x09, 0x98, 0xec, 0xf8, 0x42,
        0x7e,
    ];
    assert_eq!(hex_lower(&digest), "d41d8cd98f00b204e9800998ecf8427e");
}
