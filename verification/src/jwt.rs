//! Access tokens: the claims they carry, when they expire, and their HS256
//! encoding.

use vstd::prelude::*;

use crate::time::{
    clock_reading, delta_fits, delta_from_std, duration_text_bounded, parse_duration, spec_add, humantime_parse,
    utc_now, checked_add, Delta, Timestamp,
};
use crate::text::{decimal_text, is_lower_hex_digit};
use crate::token::{is_uuid_v4_text, random_uuid_text, uuid_draw};

verus! {

/// The claims of an access token: the user id as decimal text, the expiry
/// as a Unix timestamp, and a unique token id.
#[derive(Clone, Debug)]
pub struct Claims {
    pub sub: String,
    pub exp: usize,
    pub jti: String,
}

/// Why no access token was issued: the lifetime text was rejected (with the
/// message of the rejecting crate), or the expiry lies beyond the range of
/// `DateTime<Utc>`.
#[derive(Clone, Debug)]
pub enum JwtError {
    Ttl(String),
    Overflow,
}

/// The message of `chrono::OutOfRangeError`.
pub open spec fn out_of_range_text() -> Seq<char> {
    "Source duration value is out of range for the target type"@
}

/// The span a lifetime text such as `"15m"` stands for, or the message that
/// rejects it: `humantime` parses it, and it must fit a `chrono::TimeDelta`.
pub open spec fn ttl_delta(ttl: Seq<char>) -> Result<Delta, Seq<char>> {
    match humantime_parse(ttl) {
        Err(m) => Err(m),
        Ok(d) => if delta_fits(d.0, d.1) {
            Ok(Delta { secs: d.0 as i64, nanos: d.1 })
        } else {
            Err(out_of_range_text())
        },
    }
}

/// Parses a lifetime text into a span, as `parse_duration` followed by
/// `TimeDelta::from_std` does.
pub fn parse_ttl(ttl: &str) -> (r: Result<Delta, String>)
    requires
        duration_text_bounded(ttl@),
    ensures
        (match ttl_delta(ttl@) {
            Ok(d) => r matches Ok(e) && e == d,
            Err(m) => r matches Err(e) && e@ == m,
        }),
        r matches Ok(d) ==> d.wf(),
{
    match parse_duration(ttl) {
        Err(m) => Err(m),
        Ok(d) => delta_from_std(d.0, d.1),
    }
}

/// What HS256 JWT encoding with the default header yields for the claims
/// `sub`, `exp`, `jti` under a secret.
pub uninterp spec fn hs256_jwt(sub: Seq<char>, exp: usize, jti: Seq<char>, secret: Seq<char>) -> Seq<char>;

/// The claims a token carries when its signature verifies as HS256 under the
/// secret's bytes: the payload parsed as JSON and written back as compact
/// JSON text, keys in the order they came. `None` when the token is not
/// three dot-separated parts, its header does not parse or names another
/// algorithm, or the signature does not match.
pub uninterp spec fn hs256_claims(token: Seq<char>, secret: Seq<char>) -> Option<Seq<char>>;

/// `s` needs no escaping inside a JSON string: no quote, no backslash, no
/// control character.
pub open spec fn json_plain(s: Seq<char>) -> bool {
    forall|i: int| 0 <= i < s.len() ==> {
        let c = #[trigger] s[i];
        c != '"' && c != '\\' && (c as u32) >= 0x20
    }
}

/// The compact JSON text of the claims `sub`, `exp`, `jti`, in that order,
/// for strings that need no escaping.
pub open spec fn claims_json(sub: Seq<char>, exp: usize, jti: Seq<char>) -> Seq<char> {
    "{\"sub\":\""@ + sub + "\",\"exp\":"@ + decimal_text(exp as int) + ",\"jti\":\""@ + jti + "\"}"@
}

/// The text of a version-4 UUID needs no escaping inside a JSON string.
pub proof fn lemma_uuid_text_is_json_plain(s: Seq<char>)
    requires
        is_uuid_v4_text(s),
    ensures
        json_plain(s),
{
    assert forall|i: int| 0 <= i < s.len() implies {
        let c = #[trigger] s[i];
        c != '"' && c != '\\' && (c as u32) >= 0x20
    } by {
        if i == 8 || i == 13 || i == 18 || i == 23 {
            assert(s[i] == '-');
        } else {
            assert(is_lower_hex_digit(s[i]));
        }
    }
}

/// Encodes the claims with `jsonwebtoken::encode` under the default header
/// (HS256) and `EncodingKey::from_secret` of the secret's bytes; the claims
/// go in as a JSON object with the keys `sub`, `exp`, `jti` in that order.
/// Claimed: the token is the one named by `hs256_jwt`; encoding does not
/// fail (`encode` fails only on a key of another algorithm family or claims
/// that do not serialise, neither of which can occur here); and the
/// token's signature verifies under the same secret, its payload being the
/// JSON the claims were written as.
#[verifier::external_body]
fn encode_hs256(sub: &str, exp: usize, jti: &str, secret: &str) -> (r: Result<String, String>)
    ensures
        r is Ok,
        r matches Ok(t) ==> t@ == hs256_jwt(sub@, exp, jti@, secret@),
        r matches Ok(t) ==> (json_plain(sub@) && json_plain(jti@)
            ==> hs256_claims(t@, secret@) == Some(claims_json(sub@, exp, jti@))),
{
    let mut payload = serde_json::Map::new();
    payload.insert(String::from("sub"), serde_json::Value::from(sub));
    payload.insert(String::from("exp"), serde_json::Value::from(exp));
    payload.insert(String::from("jti"), serde_json::Value::from(jti));
    let key = jsonwebtoken::EncodingKey::from_secret(secret.as_bytes());
    match jsonwebtoken::encode(&jsonwebtoken::Header::default(), &payload, &key) {
        Ok(t) => Ok(t),
        Err(e) => Err(e.to_string()),
    }
}

/// What verifying `token` under `secret` gives at clock reading `now`, for
/// a token encoded here from claims whose subject and id need no escaping:
/// those claims as JSON text while the expiry plus 60 seconds of leeway has
/// not passed, and the refusal `ExpiredSignature` after. (A clock reading
/// in the first minute after the epoch is left out.)
pub open spec fn verdict_on_encoded(r: Result<String, String>, token: Seq<char>, secret: Seq<char>, now: Timestamp) -> bool {
    forall|sub: Seq<char>, exp: usize, jti: Seq<char>|
        #![trigger hs256_jwt(sub, exp, jti, secret)]
        token == hs256_jwt(sub, exp, jti, secret) && json_plain(sub) && json_plain(jti) && now.secs >= 60
            ==> if now.secs <= exp + 60 {
                r matches Ok(p) && p@ == claims_json(sub, exp, jti)
            } else {
                r matches Err(m) && m@ == "ExpiredSignature"@
            }
}

/// Decodes a token with `jsonwebtoken::decode` into a `serde_json::Value`,
/// under `DecodingKey::from_secret` of the secret's bytes and the default
/// validation (HS256, an `exp` claim required and checked against the
/// system clock with 60 seconds of leeway), and writes the claims back as
/// JSON text. Claimed: claims handed back are those named by
/// `hs256_claims`; a token whose signature does not verify is refused; and
/// at the instant the crate reads the clock, a token `encode_hs256` made
/// from plain claims is accepted with those claims until its expiry plus
/// the leeway and refused as expired after (the decoded payload is the very
/// JSON encoding wrote: the header names HS256, the `exp` claim is an
/// integer, and no audience, issuer or not-before claim is present). An
/// error carries the crate's message.
#[verifier::external_body]
fn decode_hs256(token: &str, secret: &str) -> (r: Result<String, String>)
    ensures
        r matches Ok(p) ==> hs256_claims(token@, secret@) == Some(p@),
        hs256_claims(token@, secret@) is None ==> r is Err,
        exists|now: Timestamp|
            #![trigger verdict_on_encoded(r, token@, secret@, now)]
            clock_reading(now) && verdict_on_encoded(r, token@, secret@, now),
{
    let key = jsonwebtoken::DecodingKey::from_secret(secret.as_bytes());
    match jsonwebtoken::decode::<serde_json::Value>(token, &key, &jsonwebtoken::Validation::default()) {
        Ok(data) => Ok(data.claims.to_string()),
        Err(e) => Err(e.to_string()),
    }
}

/// Verifies an access token under `secret`: its HS256 signature, then its
/// expiry against the current time. Claims are handed back (as JSON text)
/// only for a token whose signature verifies, and they are the claims it
/// was signed with; a token whose signature does not verify is refused with
/// the verifier's message; and at the instant the clock is read, a token
/// encoded under `secret` from plain claims is accepted with exactly those
/// claims until its expiry plus 60 seconds, and refused as expired after.
pub fn verify_jwt(token: &str, secret: &str) -> (r: Result<String, String>)
    ensures
        r matches Ok(p) ==> hs256_claims(token@, secret@) == Some(p@),
        hs256_claims(token@, secret@) is None ==> r is Err,
        exists|now: Timestamp|
            #![trigger verdict_on_encoded(r, token@, secret@, now)]
            clock_reading(now) && verdict_on_encoded(r, token@, secret@, now),
{
    decode_hs256(token, secret)
}

/// The expiry timestamp of a token issued at `now` with lifetime `ttl`.
pub open spec fn expiry_secs(ttl: Seq<char>, now: Timestamp) -> Option<int> {
    match ttl_delta(ttl) {
        Err(_) => None,
        Ok(d) => match spec_add(now, d) {
            None => None,
            Some(t) => Some(t.secs as int),
        },
    }
}

/// The claims of a token for `user_id` issued at `now` with lifetime `ttl`
/// and token id `jti`: the expiry is `now + ttl` in whole seconds.
pub fn issue_claims(user_id: &str, ttl: &str, now: Timestamp, jti: String) -> (r: Result<Claims, JwtError>)
    requires
        now.wf(),
        duration_text_bounded(ttl@),
    ensures
        (match ttl_delta(ttl@) {
            Err(m) => r matches Err(JwtError::Ttl(e)) && e@ == m,
            Ok(d) => match spec_add(now, d) {
                None => r matches Err(JwtError::Overflow),
                Some(t) => r matches Ok(c) && c.sub@ == user_id@ && c.exp == t.secs as usize && c.jti@ == jti@,
            },
        }),
{
    let delta = match parse_ttl(ttl) {
        Err(m) => return Err(JwtError::Ttl(m)),
        Ok(d) => d,
    };
    match checked_add(now, delta) {
        None => Err(JwtError::Overflow),
        Some(t) => Ok(Claims { sub: user_id.to_owned(), exp: t.secs as usize, jti }),
    }
}

/// Issues the HS256 access token for `user_id`, issued at `now` with token
/// id `jti`.
pub fn create_jwt_at(user_id: &str, secret: &str, ttl: &str, now: Timestamp, jti: String) -> (r: Result<String, JwtError>)
    requires
        now.wf(),
        duration_text_bounded(ttl@),
    ensures
        (match ttl_delta(ttl@) {
            Err(m) => r matches Err(JwtError::Ttl(e)) && e@ == m,
            Ok(d) => match spec_add(now, d) {
                None => r matches Err(JwtError::Overflow),
                Some(t) => r matches Ok(tok) && tok@ == hs256_jwt(user_id@, t.secs as usize, jti@, secret@)
                    && (json_plain(user_id@) && json_plain(jti@)
                        ==> hs256_claims(tok@, secret@) == Some(claims_json(user_id@, t.secs as usize, jti@))),
            },
        }),
{
    let claims = issue_claims(user_id, ttl, now, jti)?;
    match encode_hs256(claims.sub.as_str(), claims.exp, claims.jti.as_str(), secret) {
        Ok(t) => Ok(t),
        Err(m) => Err(JwtError::Ttl(m)),
    }
}

/// Issues an HS256 access token for `user_id` that expires `ttl` from the
/// current time, with a fresh random token id. Whatever the clock reads and
/// whatever id is drawn, the token is `hs256_jwt` of the user id, that
/// expiry and a version-4 UUID text; it fails exactly as `ttl` is rejected,
/// or when the expiry overflows the calendar. The lifetime text holds at
/// most `MAX_DURATION_DIGITS` digits.
pub fn create_jwt(user_id: &str, secret: &str, ttl: &str) -> (r: Result<String, JwtError>)
    requires
        duration_text_bounded(ttl@),
    ensures
        ttl_delta(ttl@) matches Err(m) ==> (r matches Err(JwtError::Ttl(e)) && e@ == m),
        ttl_delta(ttl@) is Ok ==> !(r matches Err(JwtError::Ttl(_))),
        r matches Err(JwtError::Overflow) ==> exists|now: Timestamp|
            #![trigger expiry_secs(ttl@, now)]
            now.wf() && clock_reading(now) && ttl_delta(ttl@) is Ok && expiry_secs(ttl@, now) is None,
        r matches Ok(tok) ==> exists|now: Timestamp, jti: Seq<char>|
            #![trigger expiry_secs(ttl@, now), is_uuid_v4_text(jti)]
            now.wf() && clock_reading(now) && is_uuid_v4_text(jti) && uuid_draw(jti) && (expiry_secs(ttl@, now) matches Some(e)
                && tok@ == hs256_jwt(user_id@, e as usize, jti, secret@)
                && (json_plain(user_id@) ==> hs256_claims(tok@, secret@) == Some(claims_json(user_id@, e as usize, jti)))),
{
    let now = utc_now();
    let jti = random_uuid_text();
    let ghost jti_text = jti@;
    let r = create_jwt_at(user_id, secret, ttl, now, jti);
    proof {
        lemma_uuid_text_is_json_plain(jti_text);
        if r is Ok {
            assert(expiry_secs(ttl@, now) is Some);
        }
        if r matches Err(JwtError::Overflow) {
            assert(expiry_secs(ttl@, now) is None);
        }
    }
    r
}

/// The key under which a revoked access token's id is recorded.
pub open spec fn blacklist_key_text(jti: Seq<char>) -> Seq<char> {
    "blacklist:"@ + jti
}

/// Builds the revocation key `blacklist:{jti}`.
pub fn blacklist_key(jti: &str) -> (r: String)
    ensures
        r@ == blacklist_key_text(jti@),
{
    let mut key = String::from_str("blacklist:");
    key.append(jti);
    key
}

} // verus!
