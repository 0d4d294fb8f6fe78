use locatorr::bytes::{bytes_eq, bytes_le, bytes_lt, push_be_u32, push_be_u64, to_hex, to_hex_groups};

#[test]
fn hex_groups_of_two_bytes() {
    assert_eq!(to_hex_groups(&[0xde, 0xad, 0xbe]), "dead be");
    assert_eq!(to_hex_groups(&[0x01, 0x02, 0x03, 0x04]), "0102 0304");
    assert_eq!(to_hex_groups(&[]), "");
    assert_eq!(to_hex(&[0x00, 0xff, 0x10]), "00ff10");
}

#[test]
fn lexicographic_order_matches_slices() {
    let cases: [(&[u8], &[u8]); 6] = [
        (b"", b""),
        (b"", b"a"),
        (b"ab", b"b"),
        (b"ab", b"abc"),
        (b"abd", b"abc"),
        (b"abc", b"abc"),
    ];
    for (a, b) in cases {
        assert_eq!(bytes_lt(a, b), a < b);
        assert_eq!(bytes_le(a, b), a <= b);
        assert_eq!(bytes_eq(a, b), a == b);
        assert_eq!(bytes_lt(b, a), b < a);
    }
}

#[test]
fn big_endian_encoding() {
    let mut v = Vec::new();
    push_be_u32(&mut v, 0x01020304);
    push_be_u64(&mut v, 0x0a0b0c0d0e0f1011);
    assert_eq!(v, vec![1, 2, 3, 4, 0x0a, 0x0b, 0x0c, 0x0d, 0x0e, 0x0f, 0x10, 0x11]);
    assert_eq!(v[..4], 0x01020304u32.to_be_bytes());
}

#[test]
fn grouped_hex_length_and_spaces() {
    for n in 0..9usize {
        let bytes: Vec<u8> = (0..n as u8).map(|b| b.wrapping_mul(37)).collect();
        let text = locatorr::bytes::to_hex_groups(&bytes);
        let expected_len = if n == 0 { 0 } else { 2 * n + (n + 1) / 2 - 1 };
        assert_eq!(text.len(), expected_len);
        for (i, c) in text.chars().enumerate() {
            assert_eq!(c == ' ', i % 5 == 4);
        }
        assert_eq!(text.replace(' ', ""), locatorr::bytes::to_hex(&bytes));
    }
}
