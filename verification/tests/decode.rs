use shell_escape_fs::hex::{hex_decode, hex_encode};

#[test]
fn test_decode() {
    assert_eq!(hex_decode(b"00a742#".to_vec()), b"\x00\xa7\x42");
    assert_eq!(hex_decode(b"00a742".to_vec()), b"\x00\xa7\x42");
    assert_eq!(hex_decode(b"".to_vec()), b"");
}

#[test]
fn decode_discards_trailing_odd_byte() {
    assert_eq!(hex_decode(b"ab7".to_vec()), b"\xab");
    assert_eq!(hex_decode(b"f".to_vec()), b"");
}

#[test]
fn decode_accepts_uppercase_digits() {
    assert_eq!(hex_decode(b"AB".to_vec()), b"\xab");
    assert_eq!(hex_decode(b"0F".to_vec()), b"\x0f");
}

#[test]
fn encode_is_lowercase_two_digits_per_byte() {
    assert_eq!(hex_encode(&vec![0xde, 0xad, 0xbe, 0xef]), b"deadbeef".to_vec());
    assert_eq!(hex_encode(&vec![0x00, 0x0a]), b"000a".to_vec());
    assert_eq!(hex_encode(&Vec::new()), b"".to_vec());
}

#[test]
fn decode_inverts_encode() {
    let data: Vec<u8> = vec![0, 1, 9, 15, 16, 127, 128, 171, 205, 255];
    let encoded = hex_encode(&data);
    assert_eq!(hex_decode(encoded), data);
}
