//! Properties that span several steps of the service.

use vstd::prelude::*;

use crate::auth_user::{bearer_prefix, bearer_token_of};
use crate::dto::RefreshToken;
use crate::error::AppError;
use crate::dto::{LoginUserRequest, User};
use crate::jwt::{
    blacklist_key_text, claims_json, expiry_secs, hs256_claims, hs256_jwt, json_plain,
    lemma_uuid_text_is_json_plain, ttl_delta, verdict_on_encoded, Claims,
};
use crate::password::argon2_check;
use crate::service::{
    issue_outcome, issued_as, logout_all_decision, logout_decision, refresh_decision, revocation_as,
    remaining_secs, AuthService, Failure, IssuedTokens, LogoutAllPlan, LogoutPlan,
    RefreshPlan, Revocation,
};
use crate::text::{decimal_text, parse_i64_text, lemma_decimal_round_trip, lemma_decimal_text_chars};
use crate::time::{clock_reading, lemma_clock_reading_is_wf, spec_add, spec_is_before, Delta, Timestamp};
use crate::token::{is_uuid_v4_text, lemma_uuid_draw_is_uuid, token_digest, uuid_draw};

verus! {

/// A refresh token handed out by a login or a refresh is found again: the
/// digest a later refresh looks the presented token up under is the digest
/// that was stored for it.
pub proof fn lemma_issued_refresh_token_is_found(
    svc: AuthService,
    user_id: i64,
    jwt_now: Timestamp,
    jti: Seq<char>,
    refresh_now: Timestamp,
    raw: Seq<char>,
    r: Result<IssuedTokens, Failure>,
)
    requires
        issued_as(r, issue_outcome(svc, user_id, jwt_now, jti, refresh_now), user_id, raw),
        issue_outcome(svc, user_id, jwt_now, jti, refresh_now) is Issued,
    ensures
        r matches Ok(t) && token_digest(t.refresh_token@) == t.token_hash@ && t.user_id == user_id,
{
}

/// The subject of an access token issued for a user reads back as that
/// user's id: the decimal text a login signs parses to the same `i64` when
/// a logout from all devices reads it.
pub proof fn lemma_subject_reads_back(user_id: i64)
    ensures
        parse_i64_text(decimal_text(user_id as int)) == Some(user_id),
{
    lemma_decimal_round_trip(user_id);
}

/// A token revoked by a logout is refused afterwards: while it still has
/// time left, the revocation records its id under the very key the
/// authentication of a later request checks for the same claims.
pub proof fn lemma_revocation_key_is_checked(claims: Claims, now: Timestamp, revoke: Option<Revocation>)
    requires
        revocation_as(revoke, claims, now),
        remaining_secs(claims.exp, now) > 0,
    ensures
        revoke matches Some(v) && v.key@ == blacklist_key_text(claims.jti@) && v.ttl_secs > 0,
{
}

/// A header made of `Bearer ` and a token yields exactly that token.
pub proof fn lemma_bearer_token_round_trip(token: Seq<char>)
    ensures
        bearer_token_of(Some(bearer_prefix() + token)) == Ok::<Seq<char>, Seq<char>>(token),
{
    let h = bearer_prefix() + token;
    assert(h.subrange(0, 7) =~= bearer_prefix());
    assert(h.subrange(7, h.len() as int) =~= token);
}

/// An access token issued to a user verifies under the service's secret,
/// and the claims it gives back name the user's id in decimal as subject,
/// the expiry the access lifetime gives from the issuing instant, and the
/// token id drawn for it.
pub proof fn lemma_issued_access_token_verifies(
    svc: AuthService,
    user_id: i64,
    jwt_now: Timestamp,
    jti: Seq<char>,
    refresh_now: Timestamp,
    raw: Seq<char>,
    r: Result<IssuedTokens, Failure>,
)
    requires
        issued_as(r, issue_outcome(svc, user_id, jwt_now, jti, refresh_now), user_id, raw),
        issue_outcome(svc, user_id, jwt_now, jti, refresh_now) is Issued,
        is_uuid_v4_text(jti),
    ensures
        r matches Ok(t) && (expiry_secs(svc.jwt_ttl@, jwt_now) matches Some(e)
            && hs256_claims(t.access_token@, svc.jwt_secret@)
                == Some(claims_json(decimal_text(user_id as int), e as usize, jti))),
{
    lemma_uuid_text_is_json_plain(jti);
}

/// The digest a refresh deletes, whether it refuses an expired token or
/// rotates a live one, is the digest the presented token was looked up
/// under.
pub proof fn lemma_refresh_deletes_presented_token(
    token: Seq<char>,
    found: Result<RefreshToken, String>,
    now: Timestamp,
    plan: Result<RefreshPlan, AppError>,
)
    requires
        refresh_decision(plan, token_digest(token), found, now),
        plan is Ok,
    ensures
        plan matches Ok(p) && (match p {
            RefreshPlan::Expired { token_hash } => token_hash@ == token_digest(token),
            RefreshPlan::Rotate { token_hash, .. } => token_hash@ == token_digest(token),
        }),
{
}

/// A refresh token is used once: after a refresh of it was decided (and
/// the row under the digest it deletes is gone, with nothing stored under
/// that digest since), a later refresh of the same token finds no row and
/// is refused as an invalid refresh token.
pub proof fn lemma_used_refresh_token_is_refused(
    token: Seq<char>,
    first_found: Result<RefreshToken, String>,
    first_now: Timestamp,
    plan: Result<RefreshPlan, AppError>,
    rows: Set<Seq<char>>,
    found: Result<RefreshToken, String>,
    now: Timestamp,
    r: Result<RefreshPlan, AppError>,
)
    requires
        refresh_decision(plan, token_digest(token), first_found, first_now),
        plan matches Ok(p) && !rows.contains(match p {
            RefreshPlan::Expired { token_hash } => token_hash@,
            RefreshPlan::Rotate { token_hash, .. } => token_hash@,
        }),
        found is Ok ==> rows.contains(token_digest(token)),
        refresh_decision(r, token_digest(token), found, now),
    ensures
        r matches Err(AppError::Unauthorized(e)) && e@ == "Invalid refresh token"@,
{
}

/// A refresh token presented at a logout is refused afterwards: the logout
/// deletes the row under the very digest a later refresh of the token looks
/// up, so with nothing stored under it since, the refresh is refused as an
/// invalid refresh token.
pub proof fn lemma_logged_out_refresh_token_is_refused(
    verified: Result<Claims, String>,
    token: Seq<char>,
    logout_now: Timestamp,
    plan: Result<LogoutPlan, AppError>,
    rows: Set<Seq<char>>,
    found: Result<RefreshToken, String>,
    now: Timestamp,
    r: Result<RefreshPlan, AppError>,
)
    requires
        logout_decision(plan, verified, token, logout_now),
        plan matches Ok(p) && !rows.contains(p.token_hash@),
        found is Ok ==> rows.contains(token_digest(token)),
        refresh_decision(r, token_digest(token), found, now),
    ensures
        r matches Err(AppError::Unauthorized(e)) && e@ == "Invalid refresh token"@,
{
}

/// After a logout from all devices, every refresh token issued to that user
/// is refused: the plan deletes the rows of that very user, so with no row
/// of the user stored since, a refresh of any token of theirs finds nothing.
/// `owners` maps each stored digest to the user it was issued to.
pub proof fn lemma_logged_out_everywhere_refresh_token_is_refused(
    verified: Result<Claims, String>,
    user_id: i64,
    logout_now: Timestamp,
    plan: Result<LogoutAllPlan, AppError>,
    owners: Map<Seq<char>, i64>,
    token: Seq<char>,
    found: Result<RefreshToken, String>,
    now: Timestamp,
    r: Result<RefreshPlan, AppError>,
)
    requires
        logout_all_decision(plan, verified, user_id, logout_now),
        plan matches Ok(p) && (forall|d: Seq<char>| #[trigger] owners.dom().contains(d) ==> owners[d] != p.user_id),
        owners.dom().contains(token_digest(token)) ==> owners[token_digest(token)] == user_id,
        found is Ok ==> owners.dom().contains(token_digest(token)),
        refresh_decision(r, token_digest(token), found, now),
    ensures
        r matches Err(AppError::Unauthorized(e)) && e@ == "Invalid refresh token"@,
{
}

/// A logout from all devices spares the other users: every row of another
/// user is among the rows kept once the plan's user has lost theirs.
/// `owners` maps each stored digest to the user it was issued to.
pub proof fn lemma_logout_everywhere_spares_other_users(
    verified: Result<Claims, String>,
    user_id: i64,
    logout_now: Timestamp,
    plan: Result<LogoutAllPlan, AppError>,
    owners: Map<Seq<char>, i64>,
    digest: Seq<char>,
)
    requires
        logout_all_decision(plan, verified, user_id, logout_now),
        plan is Ok,
        owners.dom().contains(digest),
        owners[digest] != user_id,
    ensures
        plan matches Ok(p) && owners.restrict(owners.dom().filter(|d: Seq<char>| owners[d] != p.user_id)).dom().contains(digest),
{
}

/// A logout repeated with the same verified token, the same refresh token
/// and at the same instant decides the same: the same answer, the same
/// revocation (key and seconds) and the same digest to delete.
pub proof fn lemma_logout_repeatable(
    verified: Result<Claims, String>,
    token: Seq<char>,
    now: Timestamp,
    first: Result<LogoutPlan, AppError>,
    second: Result<LogoutPlan, AppError>,
)
    requires
        logout_decision(first, verified, token, now),
        logout_decision(second, verified, token, now),
    ensures
        first is Ok <==> second is Ok,
        first matches Err(AppError::Unauthorized(a)) ==> (second matches Err(AppError::Unauthorized(b)) && a@ == b@),
        first matches Ok(p) ==> (second matches Ok(q) && p.token_hash@ == q.token_hash@
            && (p.revoke is None <==> q.revoke is None)
            && (p.revoke matches Some(v) ==> (q.revoke matches Some(w) && v.key@ == w.key@ && v.ttl_secs == w.ttl_secs))),
{
}

/// A logout repeated later with the same verified token and refresh token
/// decides the same in all that does not depend on the clock: it is
/// accepted again, deletes the same digest, and while the token still has
/// time left, revokes its id under the same key until the same instant, the
/// token's expiry (the seconds recorded shrink by the time that passed).
pub proof fn lemma_logout_repeated_later(
    claims: Claims,
    token: Seq<char>,
    first_now: Timestamp,
    later_now: Timestamp,
    first: Result<LogoutPlan, AppError>,
    later: Result<LogoutPlan, AppError>,
)
    requires
        logout_decision(first, Ok(claims), token, first_now),
        logout_decision(later, Ok(claims), token, later_now),
    ensures
        first matches Ok(p) && later matches Ok(q) && p.token_hash@ == q.token_hash@,
        first matches Ok(p) ==> (p.revoke matches Some(v) ==> v.key@ == blacklist_key_text(claims.jti@)
            && (first_now.secs as usize) + v.ttl_secs == claims.exp),
        later matches Ok(q) ==> (q.revoke matches Some(w) ==> w.key@ == blacklist_key_text(claims.jti@)
            && (later_now.secs as usize) + w.ttl_secs == claims.exp),
{
}

/// A refresh of a live token issues new tokens for the token's owner: the
/// new refresh token is stored under its own digest, and the new access
/// token verifies to claims whose subject is the owner's id in decimal.
pub proof fn lemma_refresh_issues_for_owner(
    svc: AuthService,
    token_hash: Seq<char>,
    stored: RefreshToken,
    now: Timestamp,
    plan: Result<RefreshPlan, AppError>,
    jwt_now: Timestamp,
    jti: Seq<char>,
    refresh_now: Timestamp,
    raw: Seq<char>,
    r: Result<IssuedTokens, Failure>,
)
    requires
        refresh_decision(plan, token_hash, Ok(stored), now),
        plan matches Ok(RefreshPlan::Rotate { user_id, .. })
            && issued_as(r, issue_outcome(svc, user_id, jwt_now, jti, refresh_now), user_id, raw)
            && issue_outcome(svc, user_id, jwt_now, jti, refresh_now) is Issued,
        is_uuid_v4_text(jti),
    ensures
        r matches Ok(t) && t.user_id == stored.user_id && token_digest(t.refresh_token@) == t.token_hash@
            && (expiry_secs(svc.jwt_ttl@, jwt_now) matches Some(e)
                && hs256_claims(t.access_token@, svc.jwt_secret@)
                    == Some(claims_json(decimal_text(stored.user_id as int), e as usize, jti))),
{
    lemma_uuid_text_is_json_plain(jti);
}

// ---------------------------------------------------------------------------
// Decisions taken at the clock
// ---------------------------------------------------------------------------

/// A refresh is decided at an instant the clock read: a stored token whose
/// expiry lies before that instant is refused as expired, its digest to be
/// deleted, and a token still live at that instant is rotated for its
/// owner.
pub proof fn lemma_refresh_decided_at_the_clock(
    token_hash: Seq<char>,
    stored: RefreshToken,
    r: Result<RefreshPlan, AppError>,
)
    requires
        exists|now: Timestamp|
            #![trigger refresh_decision(r, token_hash, Ok::<RefreshToken, String>(stored), now)]
            now.wf() && clock_reading(now) && refresh_decision(r, token_hash, Ok::<RefreshToken, String>(stored), now),
    ensures
        exists|now: Timestamp|
            #![trigger clock_reading(now)]
            clock_reading(now)
                && (spec_is_before(stored.expires_at, now)
                    ==> (r matches Ok(RefreshPlan::Expired { token_hash: h }) && h@ == token_hash))
                && (!spec_is_before(stored.expires_at, now)
                    ==> (r matches Ok(RefreshPlan::Rotate { token_hash: h, user_id }) && h@ == token_hash
                        && user_id == stored.user_id)),
{
    let now = choose|now: Timestamp|
        now.wf() && clock_reading(now) && refresh_decision(r, token_hash, Ok::<RefreshToken, String>(stored), now);
    assert(clock_reading(now));
}

/// The access token a login issues lives its lifetime from an instant the
/// clock read: its expiry is that instant plus the access lifetime (so at
/// least the reading's seconds plus the lifetime's), it is signed under the
/// service's secret for the user's id and a drawn token id, and it carries
/// exactly those claims.
pub proof fn lemma_login_token_lives_from_the_clock(
    svc: AuthService,
    input: LoginUserRequest,
    user: User,
    r: Result<IssuedTokens, Failure>,
)
    requires
        argon2_check(input.password@, user.password@) == Ok::<bool, Seq<char>>(true),
        exists|jwt_now: Timestamp, jti: Seq<char>, refresh_now: Timestamp, raw: Seq<char>|
            #![trigger issue_outcome(svc, user.id, jwt_now, jti, refresh_now), is_uuid_v4_text(raw)]
            jwt_now.wf() && refresh_now.wf() && is_uuid_v4_text(jti) && is_uuid_v4_text(raw)
                && clock_reading(jwt_now) && clock_reading(refresh_now) && uuid_draw(jti) && uuid_draw(raw)
                && issued_as(r, issue_outcome(svc, user.id, jwt_now, jti, refresh_now), user.id, raw),
        r is Ok,
    ensures
        exists|jwt_now: Timestamp, jti: Seq<char>, d: Delta|
            #![trigger spec_add(jwt_now, d), uuid_draw(jti)]
            clock_reading(jwt_now) && uuid_draw(jti) && ttl_delta(svc.jwt_ttl@) == Ok::<Delta, Seq<char>>(d)
                && (r matches Ok(t) && spec_add(jwt_now, d) matches Some(e)
                    && e.secs >= jwt_now.secs + d.secs
                    && t.access_token@ == hs256_jwt(decimal_text(user.id as int), e.secs as usize, jti, svc.jwt_secret@)
                    && hs256_claims(t.access_token@, svc.jwt_secret@)
                        == Some(claims_json(decimal_text(user.id as int), e.secs as usize, jti))),
{
    let (jwt_now, jti, refresh_now, raw) = choose|jwt_now: Timestamp, jti: Seq<char>, refresh_now: Timestamp, raw: Seq<char>|
        jwt_now.wf() && refresh_now.wf() && is_uuid_v4_text(jti) && is_uuid_v4_text(raw)
            && clock_reading(jwt_now) && clock_reading(refresh_now) && uuid_draw(jti) && uuid_draw(raw)
            && issued_as(r, issue_outcome(svc, user.id, jwt_now, jti, refresh_now), user.id, raw);
    lemma_uuid_text_is_json_plain(jti);
    let d = ttl_delta(svc.jwt_ttl@)->Ok_0;
    assert(spec_add(jwt_now, d) is Some);
}

/// The access token a login issues verifies: at any clock reading of the
/// verification up to its expiry (plus the verifier's minute of leeway) it
/// is accepted with the claims it was issued with, the user's id as
/// subject and an expiry the access lifetime after the login's clock
/// reading.
pub proof fn lemma_login_token_verifies_until_expiry(
    svc: AuthService,
    input: LoginUserRequest,
    user: User,
    r: Result<IssuedTokens, Failure>,
    v: Result<String, String>,
)
    requires
        argon2_check(input.password@, user.password@) == Ok::<bool, Seq<char>>(true),
        exists|jwt_now: Timestamp, jti: Seq<char>, refresh_now: Timestamp, raw: Seq<char>|
            #![trigger issue_outcome(svc, user.id, jwt_now, jti, refresh_now), is_uuid_v4_text(raw)]
            jwt_now.wf() && refresh_now.wf() && is_uuid_v4_text(jti) && is_uuid_v4_text(raw)
                && clock_reading(jwt_now) && clock_reading(refresh_now) && uuid_draw(jti) && uuid_draw(raw)
                && issued_as(r, issue_outcome(svc, user.id, jwt_now, jti, refresh_now), user.id, raw),
        r matches Ok(t) && exists|now: Timestamp|
            #![trigger verdict_on_encoded(v, t.access_token@, svc.jwt_secret@, now)]
            clock_reading(now) && verdict_on_encoded(v, t.access_token@, svc.jwt_secret@, now),
    ensures
        exists|jwt_now: Timestamp, jti: Seq<char>, d: Delta, now: Timestamp|
            #![trigger spec_add(jwt_now, d), uuid_draw(jti), clock_reading(now)]
            clock_reading(jwt_now) && uuid_draw(jti) && clock_reading(now)
                && ttl_delta(svc.jwt_ttl@) == Ok::<Delta, Seq<char>>(d)
                && (spec_add(jwt_now, d) matches Some(e)
                    && (60 <= now.secs <= (e.secs as usize) + 60 ==> (v matches Ok(p)
                        && p@ == claims_json(decimal_text(user.id as int), e.secs as usize, jti)))),
{
    lemma_login_token_lives_from_the_clock(svc, input, user, r);
    let (jwt_now, jti, d) = choose|jwt_now: Timestamp, jti: Seq<char>, d: Delta|
        clock_reading(jwt_now) && uuid_draw(jti) && ttl_delta(svc.jwt_ttl@) == Ok::<Delta, Seq<char>>(d)
            && (r matches Ok(t) && spec_add(jwt_now, d) matches Some(e)
                && e.secs >= jwt_now.secs + d.secs
                && t.access_token@ == hs256_jwt(decimal_text(user.id as int), e.secs as usize, jti, svc.jwt_secret@)
                && hs256_claims(t.access_token@, svc.jwt_secret@)
                    == Some(claims_json(decimal_text(user.id as int), e.secs as usize, jti)));
    let t = r->Ok_0;
    let now = choose|now: Timestamp| clock_reading(now) && verdict_on_encoded(v, t.access_token@, svc.jwt_secret@, now);
    let e = spec_add(jwt_now, d)->Some_0;
    lemma_uuid_draw_is_uuid(jti);
    lemma_uuid_text_is_json_plain(jti);
    lemma_decimal_text_is_json_plain(user.id as int);
    assert(t.access_token@ == hs256_jwt(decimal_text(user.id as int), e.secs as usize, jti, svc.jwt_secret@));
    assert(clock_reading(now) && uuid_draw(jti) && clock_reading(jwt_now));
}

/// The decimal text of an integer needs no escaping inside a JSON string.
pub proof fn lemma_decimal_text_is_json_plain(n: int)
    ensures
        json_plain(decimal_text(n)),
{
    lemma_decimal_text_chars(n);
}

/// A logout revokes the verified access token for the time it has left at
/// an instant the clock read: while its expiry lies after that instant, its
/// id is recorded under `blacklist:{jti}` for exactly the seconds from that
/// instant to the expiry; nothing is recorded once it has expired; and the
/// presented refresh token's digest is to be deleted.
pub proof fn lemma_logout_revokes_until_expiry(
    claims: Claims,
    token: Seq<char>,
    r: Result<LogoutPlan, AppError>,
)
    requires
        exists|now: Timestamp|
            #![trigger logout_decision(r, Ok::<Claims, String>(claims), token, now)]
            now.wf() && clock_reading(now) && logout_decision(r, Ok::<Claims, String>(claims), token, now),
    ensures
        exists|now: Timestamp|
            #![trigger clock_reading(now)]
            clock_reading(now) && now.secs >= 0 && (r matches Ok(p)
                && p.token_hash@ == token_digest(token)
                && ((now.secs as usize) < claims.exp ==> (p.revoke matches Some(v)
                    && v.key@ == "blacklist:"@ + claims.jti@
                    && v.ttl_secs == claims.exp - (now.secs as usize)))
                && (claims.exp <= (now.secs as usize) ==> p.revoke is None)),
{
    let now = choose|now: Timestamp|
        now.wf() && clock_reading(now) && logout_decision(r, Ok::<Claims, String>(claims), token, now);
    lemma_clock_reading_is_wf(now);
}

/// A logout from all devices revokes the verified access token for the
/// time it has left at an instant the clock read, exactly as a logout does,
/// and targets every refresh token of the given user.
pub proof fn lemma_logout_all_revokes_until_expiry(
    claims: Claims,
    user_id: i64,
    r: Result<LogoutAllPlan, AppError>,
)
    requires
        exists|now: Timestamp|
            #![trigger logout_all_decision(r, Ok::<Claims, String>(claims), user_id, now)]
            now.wf() && clock_reading(now) && logout_all_decision(r, Ok::<Claims, String>(claims), user_id, now),
    ensures
        exists|now: Timestamp|
            #![trigger clock_reading(now)]
            clock_reading(now) && now.secs >= 0 && (r matches Ok(p)
                && p.user_id == user_id
                && ((now.secs as usize) < claims.exp ==> (p.revoke matches Some(v)
                    && v.key@ == "blacklist:"@ + claims.jti@
                    && v.ttl_secs == claims.exp - (now.secs as usize)))
                && (claims.exp <= (now.secs as usize) ==> p.revoke is None)),
{
    let now = choose|now: Timestamp|
        now.wf() && clock_reading(now) && logout_all_decision(r, Ok::<Claims, String>(claims), user_id, now);
    lemma_clock_reading_is_wf(now);
}

/// Verification is complete for tokens encoded here, whatever the secret:
/// a token encoded under a secret from claims that need no escaping is
/// accepted under that secret with exactly those claims at any clock reading
/// up to its expiry plus a minute, and refused only after, as expired.
pub proof fn lemma_encoded_token_verifies(
    sub: Seq<char>,
    exp: usize,
    jti: Seq<char>,
    secret: Seq<char>,
    v: Result<String, String>,
)
    requires
        json_plain(sub),
        json_plain(jti),
        exists|now: Timestamp|
            #![trigger verdict_on_encoded(v, hs256_jwt(sub, exp, jti, secret), secret, now)]
            clock_reading(now) && verdict_on_encoded(v, hs256_jwt(sub, exp, jti, secret), secret, now),
    ensures
        exists|now: Timestamp|
            #![trigger clock_reading(now)]
            clock_reading(now)
                && (60 <= now.secs <= exp + 60 ==> (v matches Ok(p) && p@ == claims_json(sub, exp, jti)))
                && (60 <= now.secs && now.secs > exp + 60 ==> (v matches Err(m) && m@ == "ExpiredSignature"@)),
{
    let now = choose|now: Timestamp|
        clock_reading(now) && verdict_on_encoded(v, hs256_jwt(sub, exp, jti, secret), secret, now);
    assert(hs256_jwt(sub, exp, jti, secret) == hs256_jwt(sub, exp, jti, secret));
}

/// A token from `create_jwt` verifies under the same secret: at any clock
/// reading of the verification up to the token's expiry (the lifetime after
/// the clock reading at its creation) plus a minute, it is accepted with the
/// user id, that expiry and the drawn token id as claims.
pub proof fn lemma_created_token_verifies(
    user_id: Seq<char>,
    secret: Seq<char>,
    ttl: Seq<char>,
    tok: Seq<char>,
    v: Result<String, String>,
)
    requires
        json_plain(user_id),
        exists|now: Timestamp, jti: Seq<char>|
            #![trigger expiry_secs(ttl, now), is_uuid_v4_text(jti)]
            now.wf() && clock_reading(now) && is_uuid_v4_text(jti) && uuid_draw(jti)
                && (expiry_secs(ttl, now) matches Some(e) && tok == hs256_jwt(user_id, e as usize, jti, secret)),
        exists|now: Timestamp|
            #![trigger verdict_on_encoded(v, tok, secret, now)]
            clock_reading(now) && verdict_on_encoded(v, tok, secret, now),
    ensures
        exists|created: Timestamp, jti: Seq<char>, now: Timestamp|
            #![trigger expiry_secs(ttl, created), uuid_draw(jti), clock_reading(now)]
            clock_reading(created) && uuid_draw(jti) && clock_reading(now)
                && (expiry_secs(ttl, created) matches Some(e)
                    && (60 <= now.secs <= (e as usize) + 60 ==> (v matches Ok(p)
                        && p@ == claims_json(user_id, e as usize, jti)))),
{
    let (created, jti) = choose|now: Timestamp, jti: Seq<char>|
        now.wf() && clock_reading(now) && is_uuid_v4_text(jti) && uuid_draw(jti)
            && (expiry_secs(ttl, now) matches Some(e) && tok == hs256_jwt(user_id, e as usize, jti, secret));
    let now = choose|now: Timestamp| clock_reading(now) && verdict_on_encoded(v, tok, secret, now);
    lemma_uuid_text_is_json_plain(jti);
    let e = expiry_secs(ttl, created)->Some_0;
    assert(tok == hs256_jwt(user_id, e as usize, jti, secret));
    assert(clock_reading(created) && uuid_draw(jti) && clock_reading(now));
}

} // verus!
