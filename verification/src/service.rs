//! The decisions of the authentication service. Each operation alternates
//! storage work, done by the caller, with decisions made here: a step takes
//! what the last piece of storage work returned and says what to store,
//! delete or answer next.

use vstd::prelude::*;
use vstd::utf8::encode_utf8;

use crate::dto::{
    LoginResponse, LoginUserRequest, LogoutRequest, RefreshResponse, RefreshToken,
    RefreshTokenRequest, RegisterUserRequest, User,
};
use crate::error::AppError;
use crate::jwt::{
    blacklist_key, blacklist_key_text, claims_json, create_jwt_at, hs256_claims, hs256_jwt,
    json_plain, parse_ttl, ttl_delta, Claims, JwtError,
};
use crate::password::{argon2_check, hash_password, verify_password};
use crate::text::{decimal_text, i64_to_decimal, lemma_decimal_text_chars};
use crate::time::{
    checked_add, clock_reading, duration_text_bounded, is_before, is_duration_text_bounded, spec_add, spec_is_before,
    utc_now, Timestamp,
};
use crate::token::{hash_token, is_uuid_v4_text, random_uuid_text, token_digest, uuid_draw};

verus! {

/// Why a step produced no next step: an error to answer the request with,
/// or an abort, where the service gives up on the request without an
/// answer (a lifetime that cannot be read, or an expiry beyond the
/// calendar).
#[derive(Clone, Debug)]
pub enum Failure {
    Reply(AppError),
    Abort,
}

/// The configuration the service decides with: the signing secret and the
/// lifetimes of access and refresh tokens, as humantime texts.
#[derive(Clone, Debug)]
pub struct AuthService {
    pub jwt_secret: String,
    pub jwt_ttl: String,
    pub refresh_ttl: String,
}

/// A user to insert: the address and the PHC hash of the password.
#[derive(Clone, Debug)]
pub struct NewUser {
    pub email: String,
    pub password_hash: String,
}

/// The tokens issued to a user: an access token to hand out, and a refresh
/// token to hand out whose digest is to be stored with its expiry.
#[derive(Clone, Debug)]
pub struct IssuedTokens {
    pub user_id: i64,
    pub access_token: String,
    pub refresh_token: String,
    pub token_hash: String,
    pub expires_at: Timestamp,
}

/// What a refresh does with a stored token it found: the token has
/// expired and is to be deleted before refusing, or it is to be deleted and
/// replaced by new tokens for its owner.
#[derive(Clone, Debug)]
pub enum RefreshPlan {
    Expired { token_hash: String },
    Rotate { token_hash: String, user_id: i64 },
}

/// A revocation of an access token: the key to record and for how many
/// seconds.
#[derive(Clone, Debug)]
pub struct Revocation {
    pub key: String,
    pub ttl_secs: u64,
}

/// The work of a logout: an optional revocation of the access token, then
/// the deletion of one refresh token by its digest.
#[derive(Clone, Debug)]
pub struct LogoutPlan {
    pub revoke: Option<Revocation>,
    pub token_hash: String,
}

/// The work of a logout from all devices: an optional revocation of the
/// access token, then the deletion of every refresh token of the user.
#[derive(Clone, Debug)]
pub struct LogoutAllPlan {
    pub revoke: Option<Revocation>,
    pub user_id: i64,
}

/// What issuing tokens comes to, in plain values.
pub enum IssueOutcome {
    Internal(Seq<char>),
    Abort,
    Issued {
        access_token: Seq<char>,
        expires_at: Timestamp,
        secret: Seq<char>,
        claims: Option<Seq<char>>,
    },
}

/// The outcome of issuing tokens for `user_id` with access-token clock
/// reading `jwt_now` and token id `jti`, and refresh-token clock reading
/// `refresh_now`: the access-token lifetime is read first (a rejected text
/// is an internal error), then the refresh-token lifetime (a rejected text
/// aborts), and both expiries must fit the calendar (else abort). The
/// access token then carries, under the service's secret, the claims JSON of
/// the user id, its expiry and the token id (stated for a token id that needs
/// no JSON escaping, as a version-4 UUID does not).
pub open spec fn issue_outcome(svc: AuthService, user_id: i64, jwt_now: Timestamp, jti: Seq<char>, refresh_now: Timestamp) -> IssueOutcome {
    match ttl_delta(svc.jwt_ttl@) {
        Err(m) => IssueOutcome::Internal(m),
        Ok(d) => match spec_add(jwt_now, d) {
            None => IssueOutcome::Abort,
            Some(exp) => match ttl_delta(svc.refresh_ttl@) {
                Err(_) => IssueOutcome::Abort,
                Ok(rd) => match spec_add(refresh_now, rd) {
                    None => IssueOutcome::Abort,
                    Some(expires) => IssueOutcome::Issued {
                        access_token: hs256_jwt(decimal_text(user_id as int), exp.secs as usize, jti, svc.jwt_secret@),
                        expires_at: expires,
                        secret: svc.jwt_secret@,
                        claims: if json_plain(jti) {
                            Some(claims_json(decimal_text(user_id as int), exp.secs as usize, jti))
                        } else {
                            None
                        },
                    },
                },
            },
        },
    }
}

/// `r` is what issuing tokens for `user_id` with fresh refresh token `raw`
/// must return, given the outcome `o`.
pub open spec fn issued_as(r: Result<IssuedTokens, Failure>, o: IssueOutcome, user_id: i64, raw: Seq<char>) -> bool {
    match o {
        IssueOutcome::Internal(m) => r matches Err(Failure::Reply(AppError::InternalError(e))) && e@ == m,
        IssueOutcome::Abort => r matches Err(Failure::Abort),
        IssueOutcome::Issued { access_token, expires_at, secret, claims } => r matches Ok(t)
            && t.user_id == user_id && t.access_token@ == access_token && t.refresh_token@ == raw
            && t.token_hash@ == token_digest(raw) && t.expires_at == expires_at
            && (claims matches Some(c) ==> hs256_claims(t.access_token@, secret) == Some(c)),
    }
}

/// The seconds an access token with expiry `exp` still has at `now`, as
/// `exp.saturating_sub(now as usize)` counts them.
pub open spec fn remaining_secs(exp: usize, now: Timestamp) -> int {
    let n = now.secs as usize;
    if exp > n { exp - n } else { 0 }
}

/// `revoke` is the revocation of a verified access token at `now`: its id
/// is recorded for the seconds it still has, and nothing is recorded once
/// it has expired.
pub open spec fn revocation_as(revoke: Option<Revocation>, claims: Claims, now: Timestamp) -> bool {
    if remaining_secs(claims.exp, now) > 0 {
        revoke matches Some(v) && v.key@ == blacklist_key_text(claims.jti@)
            && v.ttl_secs == remaining_secs(claims.exp, now)
    } else {
        revoke is None
    }
}

/// `r` is the decision of a refresh once the digest `token_hash` has been
/// looked up with result `found`, at clock reading `now`: a failed lookup is
/// unauthorized; a token that expired before `now` is to be deleted and
/// refused; otherwise it is to be deleted and replaced for its owner.
pub open spec fn refresh_decision(r: Result<RefreshPlan, AppError>, token_hash: Seq<char>, found: Result<RefreshToken, String>, now: Timestamp) -> bool {
    match found {
        Err(_) => r matches Err(AppError::Unauthorized(e)) && e@ == "Invalid refresh token"@,
        Ok(t) => if spec_is_before(t.expires_at, now) {
            r matches Ok(RefreshPlan::Expired { token_hash: h }) && h@ == token_hash
        } else {
            r matches Ok(RefreshPlan::Rotate { token_hash: h, user_id }) && h@ == token_hash && user_id == t.user_id
        },
    }
}

/// `r` is the decision of a logout at clock reading `now`, once the access
/// token has been verified with result `verified`: a rejected token is
/// unauthorized with the verifier's message; otherwise its id is revoked for
/// the seconds it still has, and the presented refresh token is to be
/// deleted by its digest.
pub open spec fn logout_decision(r: Result<LogoutPlan, AppError>, verified: Result<Claims, String>, refresh_token: Seq<char>, now: Timestamp) -> bool {
    match verified {
        Err(m) => r matches Err(AppError::Unauthorized(e)) && e@ == m@,
        Ok(c) => r matches Ok(p) && revocation_as(p.revoke, c, now) && p.token_hash@ == token_digest(refresh_token),
    }
}

/// `r` is the decision of a logout from all devices of `user_id` at clock
/// reading `now`, once the access token has been verified with result
/// `verified`: as a logout, but every refresh token of the user is to be
/// deleted.
pub open spec fn logout_all_decision(r: Result<LogoutAllPlan, AppError>, verified: Result<Claims, String>, user_id: i64, now: Timestamp) -> bool {
    match verified {
        Err(m) => r matches Err(AppError::Unauthorized(e)) && e@ == m@,
        Ok(c) => r matches Ok(p) && revocation_as(p.revoke, c, now) && p.user_id == user_id,
    }
}

/// Maps the failure of a storage operation to a database error.
pub fn stored<T>(result: Result<T, String>) -> (r: Result<T, AppError>)
    ensures
        (match result {
            Ok(v) => r matches Ok(w) && w == v,
            Err(m) => r matches Err(AppError::DatabaseError(e)) && e@ == m@,
        }),
{
    match result {
        Ok(v) => Ok(v),
        Err(m) => Err(AppError::DatabaseError(m)),
    }
}

/// The revocation of a verified access token at `now`.
pub fn revocation_at(claims: &Claims, now: Timestamp) -> (r: Option<Revocation>)
    ensures
        revocation_as(r, *claims, now),
{
    let n = now.secs as usize;
    let ttl = claims.exp.saturating_sub(n);
    if ttl > 0 {
        Some(Revocation { key: blacklist_key(claims.jti.as_str()), ttl_secs: ttl as u64 })
    } else {
        None
    }
}

impl AuthService {
    /// Both lifetimes are texts the duration parser is given: at most
    /// `MAX_DURATION_DIGITS` digits each.
    pub open spec fn wf(self) -> bool {
        &&& duration_text_bounded(self.jwt_ttl@)
        &&& duration_text_bounded(self.refresh_ttl@)
    }

    /// A service signing with `jwt_secret`, issuing access tokens that live
    /// `jwt_ttl` and refresh tokens that live `refresh_ttl`. It is well formed
    /// exactly when both lifetimes hold at most `MAX_DURATION_DIGITS` digits.
    pub fn new(jwt_secret: String, jwt_ttl: String, refresh_ttl: String) -> (r: AuthService)
        ensures
            r.jwt_secret@ == jwt_secret@,
            r.jwt_ttl@ == jwt_ttl@,
            r.refresh_ttl@ == refresh_ttl@,
            r.wf() <==> (duration_text_bounded(jwt_ttl@) && duration_text_bounded(refresh_ttl@)),
    {
        AuthService { jwt_secret, jwt_ttl, refresh_ttl }
    }

    /// Tells whether both lifetimes can be handed to the duration parser,
    /// which the steps that issue tokens need.
    pub fn lifetimes_readable(&self) -> (r: bool)
        ensures
            r == self.wf(),
    {
        is_duration_text_bounded(self.jwt_ttl.as_str()) && is_duration_text_bounded(self.refresh_ttl.as_str())
    }

    /// Issues tokens for `user_id` with the given clock readings, token id
    /// and fresh refresh token.
    pub fn issue_at(&self, user_id: i64, jwt_now: Timestamp, jti: String, refresh_now: Timestamp, raw: String) -> (r: Result<IssuedTokens, Failure>)
        requires
            self.wf(),
            jwt_now.wf(),
            refresh_now.wf(),
        ensures
            issued_as(r, issue_outcome(*self, user_id, jwt_now, jti@, refresh_now), user_id, raw@),
    {
        let ghost jti_text = jti@;
        let sub = i64_to_decimal(user_id);
        proof {
            lemma_decimal_text_chars(user_id as int);
            assert(json_plain(sub@));
        }
        let access_token = match create_jwt_at(sub.as_str(), self.jwt_secret.as_str(), self.jwt_ttl.as_str(), jwt_now, jti) {
            Ok(t) => t,
            Err(JwtError::Ttl(m)) => return Err(Failure::Reply(AppError::InternalError(m))),
            Err(JwtError::Overflow) => return Err(Failure::Abort),
        };
        let token_hash = match hash_token(raw.as_str()) {
            Ok(h) => h,
            Err(m) => return Err(Failure::Reply(AppError::InternalError(m))),
        };
        let span = match parse_ttl(self.refresh_ttl.as_str()) {
            Ok(d) => d,
            Err(_) => return Err(Failure::Abort),
        };
        let expires_at = match checked_add(refresh_now, span) {
            Some(t) => t,
            None => return Err(Failure::Abort),
        };
        Ok(IssuedTokens { user_id, access_token, refresh_token: raw, token_hash, expires_at })
    }

    /// Issues tokens for `user_id` now, with a fresh token id and a fresh
    /// refresh token. Whatever the clock reads and whatever is drawn, the
    /// outcome is that of `issue_at` for some readings and draws, and the
    /// refresh token handed out is the one whose digest is to be stored.
    pub fn issue(&self, user_id: i64) -> (r: Result<IssuedTokens, Failure>)
        requires
            self.wf(),
        ensures
            exists|jwt_now: Timestamp, jti: Seq<char>, refresh_now: Timestamp, raw: Seq<char>|
                #![trigger issue_outcome(*self, user_id, jwt_now, jti, refresh_now), is_uuid_v4_text(raw)]
                jwt_now.wf() && refresh_now.wf() && is_uuid_v4_text(jti) && is_uuid_v4_text(raw)
                    && clock_reading(jwt_now) && clock_reading(refresh_now) && uuid_draw(jti) && uuid_draw(raw)
                    && issued_as(r, issue_outcome(*self, user_id, jwt_now, jti, refresh_now), user_id, raw),
    {
        let jwt_now = utc_now();
        let jti = random_uuid_text();
        let ghost jti_text = jti@;
        let raw = random_uuid_text();
        let ghost raw_text = raw@;
        let refresh_now = utc_now();
        let r = self.issue_at(user_id, jwt_now, jti, refresh_now, raw);
        assert(issued_as(r, issue_outcome(*self, user_id, jwt_now, jti_text, refresh_now), user_id, raw_text));
        r
    }

    // -----------------------------------------------------------------------
    // Registration
    // -----------------------------------------------------------------------

    /// The first step of a registration: the user to insert, with the
    /// password hashed; a hashing failure is an internal error.
    pub fn register(&self, input: &RegisterUserRequest) -> (r: Result<NewUser, AppError>)
        ensures
            r matches Ok(u) ==> u.email@ == input.email@
                && (argon2_check(input.password@, u.password_hash@) matches Ok(c) && c),
            r matches Err(e) ==> e is InternalError,
            encode_utf8(input.password@).len() <= 0xFFFF_FFFF ==> r is Ok,
    {
        match hash_password(input.password.as_str()) {
            Ok(h) => Ok(NewUser { email: input.email.clone(), password_hash: h }),
            Err(m) => Err(AppError::InternalError(m)),
        }
    }

    /// The last step of a registration: the inserted user, or the database
    /// error.
    pub fn register_stored(inserted: Result<User, String>) -> (r: Result<User, AppError>)
        ensures
            (match inserted {
                Ok(u) => r matches Ok(v) && v == u,
                Err(m) => r matches Err(AppError::DatabaseError(e)) && e@ == m@,
            }),
    {
        stored(inserted)
    }

    // -----------------------------------------------------------------------
    // Login
    // -----------------------------------------------------------------------

    /// The decision of a login once the user with the given address has
    /// been looked up, with the clock readings and draws given: a failed
    /// lookup is a database error, a stored hash that does not parse an
    /// internal error, a wrong password unauthorized, and otherwise tokens
    /// are issued for the user.
    pub fn login_at(&self, input: &LoginUserRequest, found: Result<User, String>, jwt_now: Timestamp, jti: String, refresh_now: Timestamp, raw: String) -> (r: Result<IssuedTokens, Failure>)
        requires
            self.wf(),
            jwt_now.wf(),
            refresh_now.wf(),
        ensures
            (match found {
                Err(m) => r matches Err(Failure::Reply(AppError::DatabaseError(e))) && e@ == m@,
                Ok(user) => match argon2_check(input.password@, user.password@) {
                    Err(m) => r matches Err(Failure::Reply(AppError::InternalError(e))) && e@ == m,
                    Ok(false) => r matches Err(Failure::Reply(AppError::Unauthorized(e))) && e@ == "Invalid password"@,
                    Ok(true) => issued_as(r, issue_outcome(*self, user.id, jwt_now, jti@, refresh_now), user.id, raw@),
                },
            }),
    {
        let user = match found {
            Ok(u) => u,
            Err(m) => return Err(Failure::Reply(AppError::DatabaseError(m))),
        };
        match verify_password(input.password.as_str(), user.password.as_str()) {
            Err(m) => Err(Failure::Reply(AppError::InternalError(m))),
            Ok(false) => Err(Failure::Reply(AppError::Unauthorized(String::from_str("Invalid password")))),
            Ok(true) => self.issue_at(user.id, jwt_now, jti, refresh_now, raw),
        }
    }

    /// The decision of a login once the user with the given address has
    /// been looked up, reading the clock and drawing the token id and the
    /// refresh token. The outcome is that of `login_at` for some readings
    /// and version-4 UUID draws.
    pub fn login(&self, input: &LoginUserRequest, found: Result<User, String>) -> (r: Result<IssuedTokens, Failure>)
        requires
            self.wf(),
        ensures
            (match found {
                Err(m) => r matches Err(Failure::Reply(AppError::DatabaseError(e))) && e@ == m@,
                Ok(user) => match argon2_check(input.password@, user.password@) {
                    Err(m) => r matches Err(Failure::Reply(AppError::InternalError(e))) && e@ == m,
                    Ok(false) => r matches Err(Failure::Reply(AppError::Unauthorized(e))) && e@ == "Invalid password"@,
                    Ok(true) => exists|jwt_now: Timestamp, jti: Seq<char>, refresh_now: Timestamp, raw: Seq<char>|
                        #![trigger issue_outcome(*self, user.id, jwt_now, jti, refresh_now), is_uuid_v4_text(raw)]
                        jwt_now.wf() && refresh_now.wf() && is_uuid_v4_text(jti) && is_uuid_v4_text(raw)
                    && clock_reading(jwt_now) && clock_reading(refresh_now) && uuid_draw(jti) && uuid_draw(raw)
                            && issued_as(r, issue_outcome(*self, user.id, jwt_now, jti, refresh_now), user.id, raw),
                },
            }),
    {
        let jwt_now = utc_now();
        let jti = random_uuid_text();
        let ghost jti_text = jti@;
        let raw = random_uuid_text();
        let ghost raw_text = raw@;
        let refresh_now = utc_now();
        let ghost found_copy = found;
        let r = self.login_at(input, found, jwt_now, jti, refresh_now, raw);
        proof {
            if let Ok(user) = found_copy {
                if argon2_check(input.password@, user.password@) == Ok::<bool, Seq<char>>(true) {
                    assert(issued_as(r, issue_outcome(*self, user.id, jwt_now, jti_text, refresh_now), user.id, raw_text));
                }
            }
        }
        r
    }

    /// The last step of a login: once the digest of the refresh token is
    /// stored, both tokens are handed out; a storage failure is a database
    /// error.
    pub fn login_stored(issued: IssuedTokens, stored_result: Result<(), String>) -> (r: Result<LoginResponse, AppError>)
        ensures
            (match stored_result {
                Ok(()) => r matches Ok(resp) && resp.access_token == issued.access_token
                    && resp.refresh_token == issued.refresh_token,
                Err(m) => r matches Err(AppError::DatabaseError(e)) && e@ == m@,
            }),
    {
        match stored_result {
            Ok(()) => Ok(LoginResponse { access_token: issued.access_token, refresh_token: issued.refresh_token }),
            Err(m) => Err(AppError::DatabaseError(m)),
        }
    }

    // -----------------------------------------------------------------------
    // Refresh
    // -----------------------------------------------------------------------

    /// The first step of a refresh: the digest under which the presented
    /// refresh token is looked up.
    pub fn refresh(&self, input: &RefreshTokenRequest) -> (r: String)
        ensures
            r@ == token_digest(input.refresh_token@),
    {
        match hash_token(input.refresh_token.as_str()) {
            Ok(h) => h,
            Err(m) => m,
        }
    }

    /// The decision of a refresh once the digest has been looked up, at
    /// clock reading `now`: a failed lookup is unauthorized; a token that
    /// expired before `now` is to be deleted and refused; otherwise it is to
    /// be deleted and replaced.
    pub fn refresh_found_at(token_hash: String, found: Result<RefreshToken, String>, now: Timestamp) -> (r: Result<RefreshPlan, AppError>)
        ensures
            refresh_decision(r, token_hash@, found, now),
    {
        let stored_token = match found {
            Ok(t) => t,
            Err(_) => return Err(AppError::Unauthorized(String::from_str("Invalid refresh token"))),
        };
        if is_before(stored_token.expires_at, now) {
            Ok(RefreshPlan::Expired { token_hash })
        } else {
            Ok(RefreshPlan::Rotate { token_hash, user_id: stored_token.user_id })
        }
    }

    /// The decision of a refresh once the digest has been looked up,
    /// reading the clock; the outcome is that of `refresh_found_at` for
    /// some reading.
    pub fn refresh_found(token_hash: String, found: Result<RefreshToken, String>) -> (r: Result<RefreshPlan, AppError>)
        ensures
            exists|now: Timestamp|
                #![trigger refresh_decision(r, token_hash@, found, now)]
                now.wf() && clock_reading(now) && refresh_decision(r, token_hash@, found, now),
    {
        let now = utc_now();
        let r = Self::refresh_found_at(token_hash, found, now);
        assert(now.wf());
        r
    }

    /// The last step of refusing an expired refresh token, once its
    /// deletion has been attempted: unauthorized, or the database error.
    pub fn refresh_expired_deleted(deleted: Result<(), String>) -> (r: AppError)
        ensures
            (match deleted {
                Ok(()) => r matches AppError::Unauthorized(e) && e@ == "Refresh token expired"@,
                Err(m) => r matches AppError::DatabaseError(e) && e@ == m@,
            }),
    {
        match deleted {
            Ok(()) => AppError::Unauthorized(String::from_str("Refresh token expired")),
            Err(m) => AppError::DatabaseError(m),
        }
    }

    /// The step of a rotation once the old refresh token's deletion has
    /// been attempted: a database error, or new tokens for its owner.
    pub fn refresh_rotated(&self, user_id: i64, deleted: Result<(), String>) -> (r: Result<IssuedTokens, Failure>)
        requires
            self.wf(),
        ensures
            deleted matches Err(m) ==> (r matches Err(Failure::Reply(AppError::DatabaseError(e))) && e@ == m@),
            deleted is Ok ==> exists|jwt_now: Timestamp, jti: Seq<char>, refresh_now: Timestamp, raw: Seq<char>|
                #![trigger issue_outcome(*self, user_id, jwt_now, jti, refresh_now), is_uuid_v4_text(raw)]
                jwt_now.wf() && refresh_now.wf() && is_uuid_v4_text(jti) && is_uuid_v4_text(raw)
                    && clock_reading(jwt_now) && clock_reading(refresh_now) && uuid_draw(jti) && uuid_draw(raw)
                    && issued_as(r, issue_outcome(*self, user_id, jwt_now, jti, refresh_now), user_id, raw),
    {
        match deleted {
            Err(m) => Err(Failure::Reply(AppError::DatabaseError(m))),
            Ok(()) => self.issue(user_id),
        }
    }

    /// The last step of a refresh: once the new digest is stored, both new
    /// tokens are handed out; a storage failure is a database error.
    pub fn refresh_stored(issued: IssuedTokens, stored_result: Result<(), String>) -> (r: Result<RefreshResponse, AppError>)
        ensures
            (match stored_result {
                Ok(()) => r matches Ok(resp) && resp.access_token == issued.access_token
                    && resp.refresh_token == issued.refresh_token,
                Err(m) => r matches Err(AppError::DatabaseError(e)) && e@ == m@,
            }),
    {
        match stored_result {
            Ok(()) => Ok(RefreshResponse { access_token: issued.access_token, refresh_token: issued.refresh_token }),
            Err(m) => Err(AppError::DatabaseError(m)),
        }
    }

    // -----------------------------------------------------------------------
    // Logout
    // -----------------------------------------------------------------------

    /// The decision of a logout once the access token has been verified, at
    /// clock reading `now`: a rejected token is unauthorized with the
    /// verifier's message; otherwise its id is revoked for the seconds it
    /// still has, and the presented refresh token is to be deleted by its
    /// digest.
    pub fn logout_at(verified: Result<Claims, String>, input: &LogoutRequest, now: Timestamp) -> (r: Result<LogoutPlan, AppError>)
        ensures
            logout_decision(r, verified, input.refresh_token@, now),
    {
        let claims = match verified {
            Ok(c) => c,
            Err(m) => return Err(AppError::Unauthorized(m)),
        };
        let revoke = revocation_at(&claims, now);
        let token_hash = match hash_token(input.refresh_token.as_str()) {
            Ok(h) => h,
            Err(m) => m,
        };
        Ok(LogoutPlan { revoke, token_hash })
    }

    /// The decision of a logout once the access token has been verified,
    /// reading the clock; the outcome is that of `logout_at` for some
    /// reading.
    pub fn logout(verified: Result<Claims, String>, input: &LogoutRequest) -> (r: Result<LogoutPlan, AppError>)
        ensures
            exists|now: Timestamp|
                #![trigger logout_decision(r, verified, input.refresh_token@, now)]
                now.wf() && clock_reading(now) && logout_decision(r, verified, input.refresh_token@, now),
    {
        let now = utc_now();
        let r = Self::logout_at(verified, input, now);
        assert(now.wf());
        r
    }

    /// The decision of a logout from all devices once the access token has
    /// been verified, at clock reading `now`: a rejected token is
    /// unauthorized with the verifier's message; otherwise its id is
    /// revoked for the seconds it still has, and every refresh token of
    /// `user_id` is to be deleted.
    pub fn logout_all_at(verified: Result<Claims, String>, user_id: i64, now: Timestamp) -> (r: Result<LogoutAllPlan, AppError>)
        ensures
            logout_all_decision(r, verified, user_id, now),
    {
        let claims = match verified {
            Ok(c) => c,
            Err(m) => return Err(AppError::Unauthorized(m)),
        };
        let revoke = revocation_at(&claims, now);
        Ok(LogoutAllPlan { revoke, user_id })
    }

    /// The decision of a logout from all devices once the access token has
    /// been verified, reading the clock; the outcome is that of
    /// `logout_all_at` for some reading.
    pub fn logout_all(verified: Result<Claims, String>, user_id: i64) -> (r: Result<LogoutAllPlan, AppError>)
        ensures
            exists|now: Timestamp|
                #![trigger logout_all_decision(r, verified, user_id, now)]
                now.wf() && clock_reading(now) && logout_all_decision(r, verified, user_id, now),
    {
        let now = utc_now();
        let r = Self::logout_all_at(verified, user_id, now);
        assert(now.wf());
        r
    }

    /// The last step of a logout: done once the deletion succeeded, or the
    /// database error.
    pub fn logout_deleted(deleted: Result<(), String>) -> (r: Result<(), AppError>)
        ensures
            (match deleted {
                Ok(()) => r is Ok,
                Err(m) => r matches Err(AppError::DatabaseError(e)) && e@ == m@,
            }),
    {
        stored(deleted)
    }
}

} // verus!
