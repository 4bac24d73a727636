use auth_api::text::{hex_encode, i64_to_decimal, parse_i64};
use auth_api::{generate_token, hash_token};

#[test]
fn decimal_rendering_matches_std() {
    for n in [0i64, 7, -7, 42, 1_000_000, i64::MAX, i64::MIN, -1] {
        assert_eq!(i64_to_decimal(n), n.to_string());
    }
}

#[test]
fn decimal_parsing_accepts_signs_and_digits() {
    assert_eq!(parse_i64("42"), Some(42));
    assert_eq!(parse_i64("+42"), Some(42));
    assert_eq!(parse_i64("-42"), Some(-42));
    assert_eq!(parse_i64("-0"), Some(0));
    assert_eq!(parse_i64("007"), Some(7));
    assert_eq!(parse_i64("9223372036854775807"), Some(i64::MAX));
    assert_eq!(parse_i64("-9223372036854775808"), Some(i64::MIN));
}

#[test]
fn decimal_parsing_refuses_what_std_refuses() {
    for s in ["", "+", "-", "abc", "4 2", "1e3", " 1", "9223372036854775808", "-9223372036854775809", "++1", "99999999999999999999999"] {
        assert_eq!(parse_i64(s), None, "{:?}", s);
        assert!(s.parse::<i64>().is_err());
    }
}

#[test]
fn decimal_round_trip_on_samples() {
    for n in [0i64, 1, -1, 123456789, i64::MAX, i64::MIN] {
        assert_eq!(parse_i64(&i64_to_decimal(n)), Some(n));
    }
}

#[test]
fn hex_encoding_is_lowercase_two_per_byte() {
    assert_eq!(hex_encode(&[]), "");
    assert_eq!(hex_encode(&[0x00, 0xff, 0x1a, 0x9c]), "00ff1a9c");
}

#[test]
fn hash_token_is_sha256_hex() {
    assert_eq!(
        hash_token("abc").unwrap(),
        "ba7816bf8f01cfea414140de5dae2223b00361a396177a9cb410ff61f20015ad"
    );
    assert_eq!(
        hash_token("").unwrap(),
        "e3b0c44298fc1c149afbf4c8996fb92427ae41e4649b934ca495991b7852b855"
    );
}

#[test]
fn hash_token_is_deterministic_and_64_chars() {
    let a = hash_token("some-refresh-token").unwrap();
    let b = hash_token("some-refresh-token").unwrap();
    assert_eq!(a, b);
    assert_eq!(a.len(), 64);
    assert!(a.chars().all(|c| c.is_ascii_hexdigit() && !c.is_ascii_uppercase()));
    assert_ne!(a, hash_token("other").unwrap());
}

#[test]
fn generated_tokens_are_v4_uuids() {
    let t = generate_token().unwrap();
    let cs: Vec<char> = t.chars().collect();
    assert_eq!(cs.len(), 36);
    for (i, c) in cs.iter().enumerate() {
        if i == 8 || i == 13 || i == 18 || i == 23 {
            assert_eq!(*c, '-');
        } else {
            assert!(c.is_ascii_hexdigit() && !c.is_ascii_uppercase());
        }
    }
    assert_eq!(cs[14], '4');
    assert!("89ab".contains(cs[19]));
    assert_ne!(t, generate_token().unwrap());
}
