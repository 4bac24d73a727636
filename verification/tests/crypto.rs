use auth_api::jwt::{create_jwt_at, issue_claims, parse_ttl};
use auth_api::time::{is_duration_text_bounded, Delta, Timestamp};
use auth_api::{create_jwt, hash_password, verify_password, JwtError};

fn decode(token: &str, secret: &str) -> serde_json::Value {
    let mut validation = jsonwebtoken::Validation::default();
    validation.validate_exp = false;
    validation.required_spec_claims.clear();
    jsonwebtoken::decode::<serde_json::Value>(
        token,
        &jsonwebtoken::DecodingKey::from_secret(secret.as_bytes()),
        &validation,
    )
    .unwrap()
    .claims
}

#[test]
fn hashed_password_verifies() {
    let h = hash_password("hunter42").unwrap();
    assert!(h.starts_with("$argon2id$"));
    assert_eq!(verify_password("hunter42", &h), Ok(true));
    assert_eq!(verify_password("hunter43", &h), Ok(false));
}

#[test]
fn hashing_twice_gives_different_salts() {
    let a = hash_password("pw").unwrap();
    let b = hash_password("pw").unwrap();
    assert_ne!(a, b);
    assert_eq!(verify_password("pw", &b), Ok(true));
}

#[test]
fn verify_refuses_a_non_phc_hash() {
    assert!(verify_password("pw", "not a hash").is_err());
}

#[test]
fn ttl_texts_parse_into_spans() {
    assert_eq!(parse_ttl("15m"), Ok(Delta { secs: 900, nanos: 0 }));
    assert_eq!(parse_ttl("0"), Ok(Delta { secs: 0, nanos: 0 }));
    assert_eq!(parse_ttl("1.5s"), Ok(Delta { secs: 1, nanos: 500_000_000 }));
    assert_eq!(parse_ttl("7days"), Ok(Delta { secs: 604_800, nanos: 0 }));
    assert_eq!(parse_ttl("abc"), Err("expected number at 0".to_string()));
    assert_eq!(parse_ttl(""), Err("value was empty".to_string()));
}

#[test]
fn ttl_beyond_time_delta_is_out_of_range() {
    assert_eq!(
        parse_ttl("300000000years"),
        Err("Source duration value is out of range for the target type".to_string())
    );
}

#[test]
fn claims_expire_ttl_after_now() {
    let now = Timestamp { secs: 1_700_000_000, nanos: 999_999_999 };
    let c = issue_claims("17", "1h", now, "jti-1".to_string()).unwrap();
    assert_eq!(c.sub, "17");
    assert_eq!(c.exp, 1_700_003_600);
    assert_eq!(c.jti, "jti-1");
    let c = issue_claims("17", "1ms", now, "jti-1".to_string()).unwrap();
    assert_eq!(c.exp, 1_700_000_001);
}

#[test]
fn claims_beyond_the_calendar_overflow() {
    let now = Timestamp { secs: 1_700_000_000, nanos: 0 };
    assert!(matches!(issue_claims("1", "300000years", now, "j".to_string()), Err(JwtError::Overflow)));
}

#[test]
fn token_at_fixed_time_carries_the_claims() {
    let now = Timestamp { secs: 1_700_000_000, nanos: 0 };
    let t = create_jwt_at("42", "secret", "15m", now, "the-jti".to_string()).unwrap();
    let claims = decode(&t, "secret");
    assert_eq!(claims["sub"], "42");
    assert_eq!(claims["exp"], 1_700_000_900u64);
    assert_eq!(claims["jti"], "the-jti");
    let parts: Vec<&str> = t.split('.').collect();
    assert_eq!(parts.len(), 3);
    assert_eq!(parts[0], "eyJ0eXAiOiJKV1QiLCJhbGciOiJIUzI1NiJ9");
    let again = create_jwt_at("42", "secret", "15m", now, "the-jti".to_string()).unwrap();
    assert_eq!(t, again);
}

#[test]
fn token_is_signed_with_the_secret() {
    let now = Timestamp { secs: 1_700_000_000, nanos: 0 };
    let t = create_jwt_at("42", "secret", "15m", now, "j".to_string()).unwrap();
    let mut validation = jsonwebtoken::Validation::default();
    validation.validate_exp = false;
    let wrong = jsonwebtoken::decode::<serde_json::Value>(
        &t,
        &jsonwebtoken::DecodingKey::from_secret(b"other"),
        &validation,
    );
    assert!(wrong.is_err());
}

#[test]
fn create_jwt_reads_the_clock() {
    let before = std::time::SystemTime::now().duration_since(std::time::UNIX_EPOCH).unwrap().as_secs();
    let t = create_jwt("5", "s3cret", "10m").unwrap();
    let after = std::time::SystemTime::now().duration_since(std::time::UNIX_EPOCH).unwrap().as_secs();
    let claims = decode(&t, "s3cret");
    assert_eq!(claims["sub"], "5");
    let exp = claims["exp"].as_u64().unwrap();
    assert!(exp >= before + 600 && exp <= after + 600);
    assert_eq!(claims["jti"].as_str().unwrap().len(), 36);
}

#[test]
fn create_jwt_refuses_a_bad_ttl() {
    match create_jwt("5", "s", "ten minutes") {
        Err(JwtError::Ttl(m)) => assert_eq!(m, "expected number at 0"),
        other => panic!("unexpected {:?}", other),
    }
}

fn now_secs() -> i64 {
    chrono::Utc::now().timestamp()
}

#[test]
fn verified_token_gives_back_its_claims() {
    let now = Timestamp { secs: now_secs(), nanos: 0 };
    let t = create_jwt_at("42", "secret", "15m", now, "the-jti".to_string()).unwrap();
    let claims = auth_api::verify_jwt(&t, "secret").unwrap();
    let expected = format!("{{\"sub\":\"42\",\"exp\":{},\"jti\":\"the-jti\"}}", now.secs + 900);
    assert_eq!(claims, expected);
}

#[test]
fn verify_refuses_a_wrong_secret() {
    let now = Timestamp { secs: now_secs(), nanos: 0 };
    let t = create_jwt_at("42", "secret", "15m", now, "j".to_string()).unwrap();
    assert_eq!(auth_api::verify_jwt(&t, "other"), Err("InvalidSignature".to_string()));
}

#[test]
fn verify_refuses_an_expired_token() {
    let t = create_jwt_at("42", "secret", "15m", Timestamp { secs: 1_000, nanos: 0 }, "j".to_string()).unwrap();
    assert_eq!(auth_api::verify_jwt(&t, "secret"), Err("ExpiredSignature".to_string()));
}

#[test]
fn verify_refuses_a_malformed_token() {
    assert_eq!(auth_api::verify_jwt("not-a-token", "secret"), Err("InvalidToken".to_string()));
}

#[test]
fn token_from_create_jwt_verifies() {
    let t = create_jwt("5", "s3cret", "10m").unwrap();
    let claims = auth_api::verify_jwt(&t, "s3cret").unwrap();
    assert!(claims.starts_with("{\"sub\":\"5\",\"exp\":"));
}

#[test]
fn duration_texts_are_bounded_by_their_digits() {
    assert!(is_duration_text_bounded("15m"));
    assert!(is_duration_text_bounded("7days"));
    assert!(is_duration_text_bounded("12345678901s"));
    assert!(!is_duration_text_bounded("123456789012s"));
    assert!(!is_duration_text_bounded("18446744073709551615s 1000ms"));
    assert!(is_duration_text_bounded(""));
}

#[test]
fn hashes_name_argon2id_and_default_parameters() {
    let h = hash_password("pw").unwrap();
    assert!(h.starts_with("$argon2id$v=19$m=19456,t=2,p=1$"));
    assert!(h.len() > 31);
}

#[test]
fn create_jwt_token_verifies_to_its_claims() {
    let t = create_jwt("5", "s3cret", "10m").unwrap();
    let claims: serde_json::Value = serde_json::from_str(&auth_api::verify_jwt(&t, "s3cret").unwrap()).unwrap();
    assert_eq!(claims["sub"], "5");
    let exp = claims["exp"].as_i64().unwrap();
    let now = chrono::Utc::now().timestamp();
    assert!(exp > now + 590 && exp <= now + 600);
    let jti = claims["jti"].as_str().unwrap();
    assert_eq!(jti.len(), 36);
    assert_eq!(&jti[14..15], "4");
}
