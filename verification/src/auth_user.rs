//! Authentication of a request from its `Authorization` header: the bearer
//! token, its verified claims, and the revocation check.

use vstd::prelude::*;

use crate::error::AppError;
use crate::jwt::{blacklist_key, blacklist_key_text, Claims};
use crate::text::{parse_i64, parse_i64_text};

verus! {

/// The authenticated caller: the user id from the token's subject, and the
/// access token itself.
#[derive(Clone, Debug)]
pub struct AuthUser {
    pub user_id: String,
    pub token: String,
}

/// A caller whose token verified, waiting on the revocation check of the
/// token id under `key`.
#[derive(Clone, Debug)]
pub struct PendingAuth {
    pub user: AuthUser,
    pub key: String,
}

/// The scheme prefix of a bearer credential.
pub open spec fn bearer_prefix() -> Seq<char> {
    seq!['B', 'e', 'a', 'r', 'e', 'r', ' ']
}

/// The token of an `Authorization` header value, or the refusal: a missing
/// (or unreadable) header, or one that does not start with `Bearer `.
pub open spec fn bearer_token_of(header: Option<Seq<char>>) -> Result<Seq<char>, Seq<char>> {
    match header {
        None => Err("Missing Authorization header"@),
        Some(h) => if h.len() >= 7 && h.subrange(0, 7) == bearer_prefix() {
            Ok(h.subrange(7, h.len() as int))
        } else {
            Err("Invalid token format"@)
        },
    }
}

fn starts_with_bearer(h: &str) -> (r: bool)
    ensures
        r == (h@.len() >= 7 && h@.subrange(0, 7) == bearer_prefix()),
{
    let n = h.unicode_len();
    if n < 7 {
        return false;
    }
    let prefix: [char; 7] = ['B', 'e', 'a', 'r', 'e', 'r', ' '];
    assert(prefix@ =~= bearer_prefix());
    let mut i: usize = 0;
    while i < 7
        invariant
            n == h@.len(),
            n >= 7,
            i <= 7,
            prefix@ == bearer_prefix(),
            h@.subrange(0, i as int) == bearer_prefix().subrange(0, i as int),
        decreases 7 - i,
    {
        if h.get_char(i) != prefix[i] {
            assert(h@.subrange(0, 7)[i as int] != bearer_prefix()[i as int]);
            return false;
        }
        assert(h@.subrange(0, i + 1) =~= bearer_prefix().subrange(0, i + 1));
        i += 1;
    }
    assert(bearer_prefix().subrange(0, 7) =~= bearer_prefix());
    true
}

/// Extracts the bearer token from an `Authorization` header value; `None`
/// stands for a header that is missing or not visible ASCII.
pub fn bearer_token(header: Option<&str>) -> (r: Result<String, AppError>)
    ensures
        (match bearer_token_of(match header { Some(h) => Some(h@), None => None }) {
            Ok(t) => r matches Ok(s) && s@ == t,
            Err(m) => r matches Err(AppError::Unauthorized(e)) && e@ == m,
        }),
{
    match header {
        None => Err(AppError::Unauthorized(String::from_str("Missing Authorization header"))),
        Some(h) => {
            if !starts_with_bearer(h) {
                return Err(AppError::Unauthorized(String::from_str("Invalid token format")));
            }
            let n = h.unicode_len();
            let t = h.substring_char(7, n);
            Ok(t.to_owned())
        },
    }
}

impl AuthUser {
    /// The step after the token's verification: a rejected token is
    /// unauthorized with the verifier's message; a verified one names its
    /// subject as the caller, pending the check of its id's revocation key.
    pub fn from_verified(token: String, verified: Result<Claims, String>) -> (r: Result<PendingAuth, AppError>)
        ensures
            (match verified {
                Err(m) => r matches Err(AppError::Unauthorized(e)) && e@ == m@,
                Ok(c) => r matches Ok(p) && p.user.user_id@ == c.sub@ && p.user.token@ == token@
                    && p.key@ == blacklist_key_text(c.jti@),
            }),
    {
        match verified {
            Err(m) => Err(AppError::Unauthorized(m)),
            Ok(c) => {
                let key = blacklist_key(c.jti.as_str());
                Ok(PendingAuth { user: AuthUser { user_id: c.sub, token }, key })
            },
        }
    }

    /// The last step: a revoked token is unauthorized, otherwise the caller
    /// is authenticated.
    pub fn accept(pending: PendingAuth, revoked: bool) -> (r: Result<AuthUser, AppError>)
        ensures
            revoked ==> (r matches Err(AppError::Unauthorized(e)) && e@ == "Token has been revoked"@),
            !revoked ==> (r matches Ok(u) && u == pending.user),
    {
        if revoked {
            Err(AppError::Unauthorized(String::from_str("Token has been revoked")))
        } else {
            Ok(pending.user)
        }
    }

    /// The caller's user id as a number; a subject that is not a decimal
    /// `i64` is unauthorized.
    pub fn numeric_id(&self) -> (r: Result<i64, AppError>)
        ensures
            (match parse_i64_text(self.user_id@) {
                Some(n) => r matches Ok(m) && m == n,
                None => r matches Err(AppError::Unauthorized(e)) && e@ == "Invalid user id in token"@,
            }),
    {
        match parse_i64(self.user_id.as_str()) {
            Some(n) => Ok(n),
            None => Err(AppError::Unauthorized(String::from_str("Invalid user id in token"))),
        }
    }
}

} // verus!
