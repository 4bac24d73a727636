use auth_api::time::{checked_add, is_before, Delta, Timestamp, MAX_TIMESTAMP_SECS, MIN_TIMESTAMP_SECS};
use auth_api::{
    validated, AppError, CreateUserRequest, LoginUserRequest, LogoutRequest, RefreshTokenRequest,
    RegisterUserRequest, Validate,
};

#[test]
fn error_messages_follow_display() {
    assert_eq!(AppError::DatabaseError("boom".into()).message(), "Database error: boom");
    assert_eq!(AppError::ValidationError("bad".into()).message(), "bad");
    assert_eq!(AppError::NotFound("gone".into()).message(), "gone");
    assert_eq!(AppError::Unauthorized("no".into()).message(), "no");
    assert_eq!(AppError::InternalError("oops".into()).message(), "Internal error: oops");
}

#[test]
fn error_statuses() {
    assert_eq!(AppError::DatabaseError(String::new()).status_code(), 500);
    assert_eq!(AppError::ValidationError(String::new()).status_code(), 400);
    assert_eq!(AppError::NotFound(String::new()).status_code(), 404);
    assert_eq!(AppError::Unauthorized(String::new()).status_code(), 401);
    assert_eq!(AppError::InternalError(String::new()).status_code(), 500);
}

#[test]
fn response_text_is_one_line() {
    let e = AppError::ValidationError("email: Invalid email address\npassword: x".into());
    assert_eq!(e.response_text(), "email: Invalid email address, password: x");
    assert_eq!(AppError::DatabaseError("a\n\nb".into()).response_text(), "Database error: a, , b");
}

#[test]
fn instants_compare_and_add() {
    let a = Timestamp { secs: 10, nanos: 500 };
    let b = Timestamp { secs: 10, nanos: 600 };
    assert!(is_before(a, b));
    assert!(!is_before(b, a));
    assert!(!is_before(a, a));
    let t = Timestamp { secs: 100, nanos: 600_000_000 };
    let d = Delta { secs: 5, nanos: 500_000_000 };
    assert_eq!(checked_add(t, d), Some(Timestamp { secs: 106, nanos: 100_000_000 }));
    let edge = Timestamp { secs: MAX_TIMESTAMP_SECS, nanos: 0 };
    assert_eq!(checked_add(edge, Delta { secs: 0, nanos: 999_999_999 }), Some(Timestamp { secs: MAX_TIMESTAMP_SECS, nanos: 999_999_999 }));
    assert_eq!(checked_add(edge, Delta { secs: 1, nanos: 0 }), None);
}

#[test]
fn valid_registration_passes() {
    let r = RegisterUserRequest { email: "a@example.com".into(), password: "pw".into() };
    assert!(r.validate().is_ok());
    assert!(validated(r).is_ok());
}

#[test]
fn registration_with_bad_email() {
    let r = RegisterUserRequest { email: "nope".into(), password: "pw".into() };
    let e = r.validate().unwrap_err();
    assert_eq!(e.message(), "email: Invalid email address");
    match validated(r) {
        Err(AppError::ValidationError(m)) => assert_eq!(m, "email: Invalid email address"),
        _ => panic!("expected a validation error"),
    }
}

#[test]
fn registration_with_blank_password() {
    let r = RegisterUserRequest { email: "a@b.co".into(), password: "".into() };
    assert_eq!(r.validate().unwrap_err().message(), "password: password must not be blank");
}

#[test]
fn registration_with_both_failing() {
    let r = RegisterUserRequest { email: "".into(), password: "".into() };
    let m = r.validate().unwrap_err().message();
    assert!(
        m == "email: Invalid email address\npassword: password must not be blank"
            || m == "password: password must not be blank\nemail: Invalid email address",
        "{}",
        m
    );
}

#[test]
fn login_with_empty_password_reports_the_rule() {
    let r = LoginUserRequest { email: "a@b.co".into(), password: "".into() };
    let m = r.validate().unwrap_err().message();
    assert!(
        m == "password: Validation error: length [{\"min\": Number(1), \"value\": String(\"\")}]"
            || m == "password: Validation error: length [{\"value\": String(\"\"), \"min\": Number(1)}]",
        "{}",
        m
    );
}

#[test]
fn token_requests_need_a_token() {
    assert!(RefreshTokenRequest { refresh_token: "t".into() }.validate().is_ok());
    let m = RefreshTokenRequest { refresh_token: "".into() }.validate().unwrap_err().message();
    assert!(
        m == "refresh_token: Validation error: length [{\"min\": Number(1), \"value\": String(\"\")}]"
            || m == "refresh_token: Validation error: length [{\"value\": String(\"\"), \"min\": Number(1)}]",
        "{}",
        m
    );
    assert!(LogoutRequest { refresh_token: "t".into() }.validate().is_ok());
    assert!(LogoutRequest { refresh_token: "".into() }.validate().is_err());
}

#[test]
fn create_user_reports_the_email_value() {
    let r = CreateUserRequest { email: "bad\"mail".into(), password: "x".into() };
    assert_eq!(
        r.validate().unwrap_err().message(),
        "email: Validation error: email [{\"value\": String(\"bad\\\"mail\")}]"
    );
}

#[test]
fn email_rule_follows_validator() {
    for (e, ok) in [("a@b.co", true), ("a.b@c", true), ("@b.co", false), ("ab.co", false), ("a@", false), ("a b@c.d", false)] {
        let r = LoginUserRequest { email: e.into(), password: "x".into() };
        assert_eq!(r.validate().is_ok(), ok, "{}", e);
    }
}

#[test]
fn calendar_bounds_match_chrono() {
    assert_eq!(chrono::DateTime::<chrono::Utc>::MAX_UTC.timestamp(), MAX_TIMESTAMP_SECS);
    assert_eq!(chrono::DateTime::<chrono::Utc>::MIN_UTC.timestamp(), MIN_TIMESTAMP_SECS);
    let low = Timestamp { secs: MIN_TIMESTAMP_SECS, nanos: 0 };
    assert_eq!(checked_add(low, Delta { secs: 0, nanos: 0 }), Some(low));
}
