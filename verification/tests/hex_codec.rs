use auth_core::hex::{encode_hex, parse_hex};

#[test]
fn test_encode_hex_exact_values() {
    assert_eq!(encode_hex(255, 4), "00ff");
    assert_eq!(encode_hex(0, 1), "0");
    assert_eq!(encode_hex(0xdead, 4), "dead");
    assert_eq!(encode_hex(u128::MAX, 32), "f".repeat(32));
}

#[test]
fn test_parse_hex_exact_values() {
    assert_eq!(parse_hex("00ff", 0, 4), Some(255));
    assert_eq!(parse_hex("dead", 0, 4), Some(0xdead));
    assert_eq!(parse_hex("0", 0, 1), Some(0));
    assert_eq!(parse_hex("xy", 0, 2), None);
    assert_eq!(parse_hex("0F", 0, 2), None, "upper case digits are not accepted");
}

#[test]
fn test_parse_hex_of_encode_hex() {
    for v in [0u128, 1, 15, 16, 255, 1 << 64, u128::MAX] {
        let s = encode_hex(v, 32);
        assert_eq!(parse_hex(&s, 0, 32), Some(v));
    }
}
