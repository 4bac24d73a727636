//! Opaque refresh tokens: drawing a fresh one, and the digest under which a
//! token is stored.

use vstd::prelude::*;
use vstd::utf8::encode_utf8;

use crate::text::{hex_encode, hex_text, is_lower_hex_digit, lemma_hex_text_shape};

verus! {

/// `s` is the hyphenated lowercase text of a version-4 UUID:
/// `xxxxxxxx-xxxx-4xxx-yxxx-xxxxxxxxxxxx` with `y` one of `8`, `9`, `a`, `b`.
pub open spec fn is_uuid_v4_text(s: Seq<char>) -> bool {
    &&& s.len() == 36
    &&& forall|i: int|
        0 <= i < 36 ==> (if i == 8 || i == 13 || i == 18 || i == 23 {
            #[trigger] s[i] == '-'
        } else {
            is_lower_hex_digit(s[i])
        })
    &&& s[14] == '4'
    &&& (s[19] == '8' || s[19] == '9' || s[19] == 'a' || s[19] == 'b')
}

/// What SHA-256 yields for a byte string.
pub uninterp spec fn sha256_digest(data: Seq<u8>) -> Seq<u8>;

/// The text under which a refresh token is stored: the lowercase hex of the
/// SHA-256 of its UTF-8 bytes.
pub open spec fn token_digest(token: Seq<char>) -> Seq<char> {
    hex_text(sha256_digest(encode_utf8(token)))
}

/// `s` is a version-4 UUID text drawn from the random source. What the
/// definition says stays in this module; elsewhere a text is known to be a
/// draw only because `random_uuid_text` handed it out, so a token said to be
/// drawn is one the random source gave, not one the code picked.
pub closed spec fn uuid_draw(s: Seq<char>) -> bool {
    is_uuid_v4_text(s)
}

/// A drawn token is the text of a version-4 UUID.
pub proof fn lemma_uuid_draw_is_uuid(s: Seq<char>)
    requires
        uuid_draw(s),
    ensures
        is_uuid_v4_text(s),
{
}

/// Draws a random UUID with `uuid::Uuid::new_v4` and renders it with its
/// `Display`. Claimed: the text is a draw, the hyphenated lowercase form of
/// a version-4 UUID; which one is drawn is left to the operating system's
/// random source.
#[verifier::external_body]
pub(crate) fn random_uuid_text() -> (r: String)
    ensures
        is_uuid_v4_text(r@),
        uuid_draw(r@),
{
    uuid::Uuid::new_v4().to_string()
}

/// Computes SHA-256 with `sha2::Sha256::digest`. Claimed: the result is the
/// digest named by `sha256_digest`, which is 32 bytes long.
#[verifier::external_body]
fn sha256(data: &[u8]) -> (r: Vec<u8>)
    ensures
        r@ == sha256_digest(data@),
        r@.len() == 32,
{
    <sha2::Sha256 as sha2::Digest>::digest(data).to_vec()
}

/// A fresh opaque token: the text of a random version-4 UUID. It never
/// fails.
pub fn generate_token() -> (r: Result<String, String>)
    ensures
        r matches Ok(t) && is_uuid_v4_text(t@),
        r matches Ok(t) && uuid_draw(t@),
{
    Ok(random_uuid_text())
}

/// The stored form of a token: lowercase hex of the SHA-256 of its UTF-8
/// bytes, 64 characters long. It never fails.
pub fn hash_token(token: &str) -> (r: Result<String, String>)
    ensures
        r matches Ok(h) && h@ == token_digest(token@),
        r matches Ok(h) && h@.len() == 64,
{
    let digest = sha256(token.as_bytes());
    let h = hex_encode(digest.as_slice());
    proof {
        lemma_hex_text_shape(digest@);
    }
    Ok(h)
}

} // verus!
