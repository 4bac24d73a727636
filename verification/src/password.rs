//! Password hashing with Argon2 in PHC string form.

use vstd::prelude::*;
use vstd::utf8::encode_utf8;
use argon2::{PasswordHasher, PasswordVerifier};

verus! {

/// What checking a password against a PHC hash string with the default
/// Argon2 yields: `Err` with the parser's message when the string is not a
/// PHC hash, otherwise whether the password matches it.
pub uninterp spec fn argon2_check(password: Seq<char>, phc: Seq<char>) -> Result<bool, Seq<char>>;

/// Parses `hash` with `password_hash::PasswordHash::new` and checks the
/// password with `Argon2::default().verify_password`. Claimed: the outcome
/// is the one named by `argon2_check`; a parse error carries the text of the
/// crate's `Display` for it.
#[verifier::external_body]
fn argon2_verify(password: &str, hash: &str) -> (r: Result<bool, String>)
    ensures
        r is Ok <==> argon2_check(password@, hash@) is Ok,
        r matches Ok(b) ==> (argon2_check(password@, hash@) matches Ok(c) && c == b),
        r matches Err(m) ==> (argon2_check(password@, hash@) matches Err(f) && f == m@),
{
    match argon2::PasswordHash::new(hash) {
        Ok(parsed) => Ok(argon2::Argon2::default().verify_password(password.as_bytes(), &parsed).is_ok()),
        Err(e) => Err(e.to_string()),
    }
}

/// The start of every PHC string the default Argon2 writes: algorithm
/// `argon2id`, version 19, 19456 KiB of memory, two passes, one lane.
pub open spec fn argon2id_prefix() -> Seq<char> {
    "$argon2id$v=19$m=19456,t=2,p=1$"@
}

/// Hashes a password with `Argon2::default().hash_password` under a salt
/// drawn by `SaltString::generate(&mut OsRng)`, and renders the PHC string.
/// Claimed: a produced string is accepted by `argon2_check` for the same
/// password (hashing is deterministic for a given salt and parameters, and
/// the PHC string carries both), it starts with `argon2id_prefix` followed by
/// the salt, and hashing succeeds for any password of at most `u32::MAX`
/// bytes. Which salt is drawn, and so which string comes
/// out, is left to the operating system's random source.
#[verifier::external_body]
fn argon2_hash(password: &str) -> (r: Result<String, String>)
    ensures
        r matches Ok(h) ==> (argon2_check(password@, h@) matches Ok(c) && c),
        r matches Ok(h) ==> (argon2id_prefix().len() < h@.len()
            && h@.subrange(0, argon2id_prefix().len() as int) == argon2id_prefix()),
        encode_utf8(password@).len() <= 0xFFFF_FFFF ==> r is Ok,
{
    let salt = argon2::password_hash::SaltString::generate(&mut argon2::password_hash::rand_core::OsRng);
    match argon2::Argon2::default().hash_password(password.as_bytes(), &salt) {
        Ok(h) => Ok(h.to_string()),
        Err(e) => Err(e.to_string()),
    }
}

/// Hashes a password into a salted Argon2 PHC string. The string comes out
/// of a random salt; whatever it is, `verify_password` accepts the same
/// password against it. The string names Argon2id, version 19 and the
/// default parameters.
pub fn hash_password(password: &str) -> (r: Result<String, String>)
    ensures
        r matches Ok(h) ==> (argon2_check(password@, h@) matches Ok(c) && c),
        r matches Ok(h) ==> (argon2id_prefix().len() < h@.len()
            && h@.subrange(0, argon2id_prefix().len() as int) == argon2id_prefix()),
        encode_utf8(password@).len() <= 0xFFFF_FFFF ==> r is Ok,
{
    argon2_hash(password)
}

/// Checks a password against a stored PHC string: `Ok(true)` when it
/// matches, `Ok(false)` when it does not, and `Err` with the parser's message
/// when the stored string is not a PHC hash.
pub fn verify_password(password: &str, hash: &str) -> (r: Result<bool, String>)
    ensures
        r is Ok <==> argon2_check(password@, hash@) is Ok,
        r matches Ok(b) ==> (argon2_check(password@, hash@) matches Ok(c) && c == b),
        r matches Err(m) ==> (argon2_check(password@, hash@) matches Err(f) && f == m@),
{
    argon2_verify(password, hash)
}

} // verus!
