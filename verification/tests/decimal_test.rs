use cw_hub_bnusd::decimal::{decimal_bytes, parse_u128};

#[test]
fn notation_of_the_boundaries() {
    assert_eq!(decimal_bytes(0), b"0".to_vec());
    assert_eq!(decimal_bytes(1), b"1".to_vec());
    assert_eq!(decimal_bytes(9), b"9".to_vec());
    assert_eq!(decimal_bytes(10), b"10".to_vec());
    assert_eq!(decimal_bytes(100), b"100".to_vec());
    assert_eq!(decimal_bytes(1_000_000_007), b"1000000007".to_vec());
    assert_eq!(decimal_bytes(u128::MAX), b"340282366920938463463374607431768211455".to_vec());
}

#[test]
fn notation_agrees_with_std() {
    let mut value: u128 = 1;
    for step in 0..128u32 {
        for v in [value - 1, value, value + (step as u128)] {
            assert_eq!(decimal_bytes(v), v.to_string().into_bytes());
            assert_eq!(parse_u128(v.to_string().as_bytes()), Some(v));
        }
        value = value.wrapping_mul(2).max(1);
    }
}

#[test]
fn reading_the_boundaries() {
    assert_eq!(parse_u128(b"0"), Some(0));
    assert_eq!(parse_u128(b"1"), Some(1));
    assert_eq!(parse_u128(b"340282366920938463463374607431768211455"), Some(u128::MAX));
    assert_eq!(parse_u128(b"340282366920938463463374607431768211456"), None);
    assert_eq!(parse_u128(b"3402823669209384634633746074317682114550"), None);
    assert_eq!(parse_u128(b"999999999999999999999999999999999999999"), None);
}

#[test]
fn reading_signs_and_zeros() {
    assert_eq!(parse_u128(b"+5"), Some(5));
    assert_eq!(parse_u128(b"007"), Some(7));
    assert_eq!(parse_u128(b"+000"), Some(0));
    assert_eq!(parse_u128(b"00000000000000000000000000000000000000000000000001"), Some(1));
    assert_eq!(parse_u128(b""), None);
    assert_eq!(parse_u128(b"+"), None);
    assert_eq!(parse_u128(b"++1"), None);
    assert_eq!(parse_u128(b"-1"), None);
    assert_eq!(parse_u128(b"-0"), None);
    assert_eq!(parse_u128(b"1+"), None);
}

#[test]
fn reading_what_is_no_number() {
    for text in ["d", "12a", "a12", " 1", "1 ", "1_000", "0x10", "1.0", "1e3", "١٢٣", "12\u{0}"] {
        assert_eq!(parse_u128(text.as_bytes()), None);
    }
    assert_eq!(parse_u128(&[0x31, 0xff]), None);
}

#[test]
fn reading_agrees_with_std() {
    let texts = [
        "", "+", "-", "0", "+0", "-0", "42", "+42", "-42", "0042", "4 2", "42x", "x42",
        "340282366920938463463374607431768211455", "340282366920938463463374607431768211456",
        "+340282366920938463463374607431768211455", "99999999999999999999999999999999999999999",
    ];
    for text in texts {
        assert_eq!(parse_u128(text.as_bytes()), text.parse::<u128>().ok());
    }
}
