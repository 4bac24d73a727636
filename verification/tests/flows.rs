use auth_api::time::Timestamp;
use auth_api::{
    bearer_token, hash_password, hash_token, AppError, AuthService, AuthUser, Claims, Failure,
    LoginUserRequest, LogoutRequest, RefreshPlan, RefreshToken, RefreshTokenRequest,
    RegisterUserRequest, User,
};

fn service() -> AuthService {
    AuthService::new("secret".to_string(), "15m".to_string(), "7days".to_string())
}

fn at(secs: i64) -> Timestamp {
    Timestamp { secs, nanos: 0 }
}

fn user(password: &str) -> User {
    User { id: 42, email: "a@b.co".into(), password: hash_password(password).unwrap() }
}

fn login_input(password: &str) -> LoginUserRequest {
    LoginUserRequest { email: "a@b.co".into(), password: password.into() }
}

#[test]
fn register_hashes_the_password() {
    let svc = service();
    let input = RegisterUserRequest { email: "a@b.co".into(), password: "pw".into() };
    let new_user = svc.register(&input).unwrap();
    assert_eq!(new_user.email, "a@b.co");
    assert_eq!(auth_api::verify_password("pw", &new_user.password_hash), Ok(true));
    let stored = AuthService::register_stored(Ok(User { id: 1, email: "a@b.co".into(), password: new_user.password_hash.clone() }));
    assert_eq!(stored.unwrap().id, 1);
    match AuthService::register_stored(Err("duplicate key".into())) {
        Err(AppError::DatabaseError(m)) => assert_eq!(m, "duplicate key"),
        _ => panic!(),
    }
}

#[test]
fn login_issues_tokens_and_stores_the_digest() {
    let svc = service();
    let issued = svc
        .login_at(&login_input("pw"), Ok(user("pw")), at(1_000), "jti".into(), at(2_000), "raw-token".into())
        .unwrap();
    assert_eq!(issued.user_id, 42);
    assert_eq!(issued.refresh_token, "raw-token");
    assert_eq!(issued.token_hash, hash_token("raw-token").unwrap());
    assert_eq!(issued.expires_at, at(2_000 + 7 * 86_400));
    let expected = auth_api::jwt::create_jwt_at("42", "secret", "15m", at(1_000), "jti".into()).unwrap();
    assert_eq!(issued.access_token, expected);
    let resp = AuthService::login_stored(issued.clone(), Ok(())).unwrap();
    assert_eq!(resp.access_token, issued.access_token);
    assert_eq!(resp.refresh_token, "raw-token");
    assert!(matches!(AuthService::login_stored(issued, Err("down".into())), Err(AppError::DatabaseError(_))));
}

#[test]
fn login_with_wrong_password_is_unauthorized() {
    let svc = service();
    match svc.login(&login_input("wrong"), Ok(user("pw"))) {
        Err(Failure::Reply(AppError::Unauthorized(m))) => assert_eq!(m, "Invalid password"),
        _ => panic!(),
    }
}

#[test]
fn login_of_unknown_user_is_a_database_error() {
    let svc = service();
    match svc.login(&login_input("pw"), Err("no rows returned".into())) {
        Err(Failure::Reply(AppError::DatabaseError(m))) => assert_eq!(m, "no rows returned"),
        _ => panic!(),
    }
}

#[test]
fn login_with_unparsable_stored_hash_is_internal() {
    let svc = service();
    let u = User { id: 1, email: "a@b.co".into(), password: "plain".into() };
    assert!(matches!(svc.login(&login_input("pw"), Ok(u)), Err(Failure::Reply(AppError::InternalError(_)))));
}

#[test]
fn login_with_bad_access_ttl_is_internal() {
    let svc = AuthService::new("s".into(), "soon".into(), "7days".into());
    match svc.login(&login_input("pw"), Ok(user("pw"))) {
        Err(Failure::Reply(AppError::InternalError(m))) => assert_eq!(m, "expected number at 0"),
        _ => panic!(),
    }
}

#[test]
fn login_with_bad_refresh_ttl_aborts() {
    let svc = AuthService::new("s".into(), "15m".into(), "later".into());
    assert!(matches!(svc.login(&login_input("pw"), Ok(user("pw"))), Err(Failure::Abort)));
}

#[test]
fn refresh_looks_up_the_digest() {
    let svc = service();
    let input = RefreshTokenRequest { refresh_token: "raw".into() };
    assert_eq!(svc.refresh(&input), hash_token("raw").unwrap());
}

#[test]
fn refresh_of_unknown_token_is_unauthorized() {
    match AuthService::refresh_found_at("h".into(), Err("no rows".into()), at(10)) {
        Err(AppError::Unauthorized(m)) => assert_eq!(m, "Invalid refresh token"),
        _ => panic!(),
    }
}

#[test]
fn refresh_of_expired_token_deletes_then_refuses() {
    let stored = RefreshToken { id: 1, user_id: 7, token: "h".into(), expires_at: at(9) };
    match AuthService::refresh_found_at("h".into(), Ok(stored), at(10)) {
        Ok(RefreshPlan::Expired { token_hash }) => assert_eq!(token_hash, "h"),
        _ => panic!(),
    }
    match AuthService::refresh_expired_deleted(Ok(())) {
        AppError::Unauthorized(m) => assert_eq!(m, "Refresh token expired"),
        _ => panic!(),
    }
    assert!(matches!(AuthService::refresh_expired_deleted(Err("x".into())), AppError::DatabaseError(_)));
}

#[test]
fn refresh_of_live_token_rotates() {
    let stored = RefreshToken { id: 1, user_id: 7, token: "h".into(), expires_at: at(10) };
    match AuthService::refresh_found_at("h".into(), Ok(stored), at(10)) {
        Ok(RefreshPlan::Rotate { token_hash, user_id }) => {
            assert_eq!(token_hash, "h");
            assert_eq!(user_id, 7);
        }
        _ => panic!(),
    }
    let svc = service();
    let issued = svc.refresh_rotated(7, Ok(())).unwrap();
    assert_eq!(issued.user_id, 7);
    assert_eq!(issued.token_hash, hash_token(&issued.refresh_token).unwrap());
    let resp = AuthService::refresh_stored(issued.clone(), Ok(())).unwrap();
    assert_eq!(resp.refresh_token, issued.refresh_token);
    assert!(matches!(svc.refresh_rotated(7, Err("x".into())), Err(Failure::Reply(AppError::DatabaseError(_)))));
}

fn claims(exp: usize) -> Claims {
    Claims { sub: "42".into(), exp, jti: "abc".into() }
}

#[test]
fn logout_revokes_for_the_remaining_lifetime() {
    let input = LogoutRequest { refresh_token: "raw".into() };
    let plan = AuthService::logout_at(Ok(claims(1_000)), &input, at(400)).unwrap();
    let v = plan.revoke.unwrap();
    assert_eq!(v.key, "blacklist:abc");
    assert_eq!(v.ttl_secs, 600);
    assert_eq!(plan.token_hash, hash_token("raw").unwrap());
}

#[test]
fn logout_of_expired_token_revokes_nothing() {
    let input = LogoutRequest { refresh_token: "raw".into() };
    let plan = AuthService::logout_at(Ok(claims(1_000)), &input, at(1_000)).unwrap();
    assert!(plan.revoke.is_none());
}

#[test]
fn logout_with_rejected_token_is_unauthorized() {
    let input = LogoutRequest { refresh_token: "raw".into() };
    match AuthService::logout(Err("ExpiredSignature".into()), &input) {
        Err(AppError::Unauthorized(m)) => assert_eq!(m, "ExpiredSignature"),
        _ => panic!(),
    }
    assert!(AuthService::logout_deleted(Ok(())).is_ok());
    assert!(matches!(AuthService::logout_deleted(Err("x".into())), Err(AppError::DatabaseError(_))));
}

#[test]
fn logout_all_deletes_the_users_tokens() {
    let plan = AuthService::logout_all_at(Ok(claims(500)), 42, at(100)).unwrap();
    assert_eq!(plan.user_id, 42);
    assert_eq!(plan.revoke.unwrap().ttl_secs, 400);
}

#[test]
fn bearer_header_parsing() {
    assert!(matches!(bearer_token(None), Err(AppError::Unauthorized(m)) if m == "Missing Authorization header"));
    assert!(matches!(bearer_token(Some("Basic abc")), Err(AppError::Unauthorized(m)) if m == "Invalid token format"));
    assert!(matches!(bearer_token(Some("bearer abc")), Err(AppError::Unauthorized(_))));
    assert_eq!(bearer_token(Some("Bearer abc.def")).unwrap(), "abc.def");
    assert_eq!(bearer_token(Some("Bearer ")).unwrap(), "");
}

#[test]
fn authentication_checks_revocation() {
    let pending = AuthUser::from_verified("tok".into(), Ok(claims(5))).unwrap();
    assert_eq!(pending.key, "blacklist:abc");
    assert_eq!(pending.user.user_id, "42");
    match AuthUser::accept(pending.clone(), true) {
        Err(AppError::Unauthorized(m)) => assert_eq!(m, "Token has been revoked"),
        _ => panic!(),
    }
    let u = AuthUser::accept(pending, false).unwrap();
    assert_eq!(u.token, "tok");
    assert_eq!(u.numeric_id().unwrap(), 42);
    assert!(matches!(AuthUser::from_verified("t".into(), Err("InvalidSignature".into())), Err(AppError::Unauthorized(m)) if m == "InvalidSignature"));
}

#[test]
fn non_numeric_subject_is_unauthorized() {
    let u = AuthUser { user_id: "x1".into(), token: "t".into() };
    assert!(matches!(u.numeric_id(), Err(AppError::Unauthorized(m)) if m == "Invalid user id in token"));
}

#[test]
fn issued_refresh_token_is_found_by_refresh() {
    let svc = service();
    let issued = svc.issue(9).unwrap();
    let lookup = svc.refresh(&RefreshTokenRequest { refresh_token: issued.refresh_token.clone() });
    assert_eq!(lookup, issued.token_hash);
}

#[test]
fn revocation_key_matches_authentication_key() {
    let c = claims(1_000);
    let plan = AuthService::logout_all_at(Ok(c.clone()), 42, at(1)).unwrap();
    let pending = AuthUser::from_verified("t".into(), Ok(c)).unwrap();
    assert_eq!(plan.revoke.unwrap().key, pending.key);
}

#[test]
fn service_keeps_its_lifetimes_and_tells_if_they_can_be_read() {
    let svc = AuthService::new("s".into(), "15m".into(), "7days".into());
    assert_eq!(svc.jwt_secret, "s");
    assert_eq!(svc.jwt_ttl, "15m");
    assert_eq!(svc.refresh_ttl, "7days");
    assert!(svc.lifetimes_readable());
    let long = AuthService::new("s".into(), "1000000000000ns".into(), "7days".into());
    assert_eq!(long.jwt_ttl, "1000000000000ns");
    assert!(!long.lifetimes_readable());
    assert!(!AuthService::new("s".into(), "15m".into(), "18446744073709551615s 1000ms".into()).lifetimes_readable());
}

#[test]
fn rotated_refresh_token_is_refused_afterwards() {
    let presented = RefreshTokenRequest { refresh_token: "raw-token".into() };
    let digest = service().refresh(&presented);
    let stored = RefreshToken { id: 1, user_id: 42, token: digest.clone(), expires_at: at(10_000) };
    let deleted = match AuthService::refresh_found_at(digest.clone(), Ok(stored), at(5_000)).unwrap() {
        RefreshPlan::Rotate { token_hash, user_id } => {
            assert_eq!(user_id, 42);
            token_hash
        }
        RefreshPlan::Expired { .. } => panic!(),
    };
    assert_eq!(deleted, digest);
    let again = service().refresh(&presented);
    assert_eq!(again, deleted);
    match AuthService::refresh_found_at(again, Err("no rows returned".into()), at(5_001)) {
        Err(AppError::Unauthorized(m)) => assert_eq!(m, "Invalid refresh token"),
        _ => panic!(),
    }
}

#[test]
fn logout_deletes_the_digest_a_refresh_looks_up() {
    let input = LogoutRequest { refresh_token: "raw-token".into() };
    let plan = AuthService::logout_at(Ok(claims(2_000)), &input, at(1_000)).unwrap();
    let lookup = service().refresh(&RefreshTokenRequest { refresh_token: "raw-token".into() });
    assert_eq!(plan.token_hash, lookup);
    let second = AuthService::logout_at(Ok(claims(2_000)), &input, at(1_000)).unwrap();
    assert_eq!(second.token_hash, plan.token_hash);
    assert_eq!(second.revoke.unwrap().ttl_secs, plan.revoke.unwrap().ttl_secs);
}

#[test]
fn refreshed_access_token_names_the_owner() {
    let svc = service();
    let now = chrono::Utc::now().timestamp();
    let issued = svc.issue_at(42, at(now), "jti".into(), at(now), "raw".into()).unwrap();
    let claims = auth_api::verify_jwt(&issued.access_token, "secret").unwrap();
    assert_eq!(claims, format!("{{\"sub\":\"42\",\"exp\":{},\"jti\":\"jti\"}}", now + 900));
}

#[test]
fn logout_everywhere_targets_only_the_caller() {
    let plan = AuthService::logout_all_at(Ok(claims(2_000)), 42, at(1_000)).unwrap();
    assert_eq!(plan.user_id, 42);
    let stored_other = RefreshToken { id: 2, user_id: 7, token: hash_token("other").unwrap(), expires_at: at(10_000) };
    assert_ne!(stored_other.user_id, plan.user_id);
    match AuthService::refresh_found_at(hash_token("mine").unwrap(), Err("no rows returned".into()), at(1_001)) {
        Err(AppError::Unauthorized(m)) => assert_eq!(m, "Invalid refresh token"),
        _ => panic!(),
    }
    match AuthService::refresh_found_at(hash_token("other").unwrap(), Ok(stored_other), at(1_001)) {
        Ok(RefreshPlan::Rotate { user_id, .. }) => assert_eq!(user_id, 7),
        _ => panic!(),
    }
}

#[test]
fn drawn_tokens_need_no_json_escaping() {
    let t = auth_api::generate_token().unwrap();
    assert_eq!(t.len(), 36);
    assert!(t.chars().all(|c| c == '-' || c.is_ascii_hexdigit()));
}

#[test]
fn later_logout_revokes_until_the_same_instant() {
    let input = LogoutRequest { refresh_token: "raw".into() };
    let first = AuthService::logout_at(Ok(claims(2_000)), &input, at(1_000)).unwrap();
    let later = AuthService::logout_at(Ok(claims(2_000)), &input, at(1_500)).unwrap();
    assert_eq!(first.token_hash, later.token_hash);
    let (v, w) = (first.revoke.unwrap(), later.revoke.unwrap());
    assert_eq!(v.key, w.key);
    assert_eq!(1_000 + v.ttl_secs, 2_000);
    assert_eq!(1_500 + w.ttl_secs, 2_000);
}
