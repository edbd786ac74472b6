use vstd::prelude::*;

use crate::errors::ServerError;

verus! {

/// What bcrypt's check of `password` against the stored `hash` gives:
/// `Some(accepted)` when the hash is well formed, `None` when it is not.
pub uninterp spec fn bcrypt_check(password: Seq<char>, hash: Seq<char>) -> Option<bool>;

/// Whether `h` has the shape of a bcrypt hash of version 2b and cost 12:
/// the prefix `$2b$12$` followed by 22 characters of salt and 31 of digest.
pub open spec fn is_bcrypt_text(h: Seq<char>) -> bool {
    h.len() == 60 && h.subrange(0, 7) == "$2b$12$"@
}

/// Relies on bcrypt::hash with bcrypt::DEFAULT_COST (12): the salt is drawn
/// at random, the hash is written in version 2b as `$2b$12$`, the 22-character
/// salt and the 31-character digest, and bcrypt::verify, which reads salt and
/// cost back from the hash, accepts the same password against it.
#[verifier::external_body]
fn bcrypt_hash(password: &str) -> (r: Option<String>)
    ensures
        r is Some ==> bcrypt_check(password@, r->Some_0@) == Some(true),
        r is Some ==> is_bcrypt_text(r->Some_0@),
{
    bcrypt::hash(password, bcrypt::DEFAULT_COST).ok()
}

/// Relies on bcrypt::verify: the answer depends on the password and the
/// stored hash alone, and is an error when the hash is malformed.
#[verifier::external_body]
fn bcrypt_verify(password: &str, hash: &str) -> (r: Option<bool>)
    ensures
        r == bcrypt_check(password@, hash@),
{
    bcrypt::verify(password, hash).ok()
}

/// Hashes `password` with a fresh salt. A hash it returns is one that
/// `verify_password` accepts the same password against.
pub fn hash_password(password: &str) -> (r: Result<String, ServerError>)
    ensures
        r matches Ok(h) ==> bcrypt_check(password@, h@) == Some(true),
        r matches Ok(h) ==> is_bcrypt_text(h@),
        r matches Err(e) ==> e == ServerError::InternalError,
{
    match bcrypt_hash(password) {
        Some(h) => Ok(h),
        None => Err(ServerError::InternalError),
    }
}

/// Checks `password` against a stored hash: whether it matches, or
/// `InternalError` when the stored hash is malformed.
pub fn verify_password(password: &str, hash: &str) -> (r: Result<bool, ServerError>)
    ensures
        r matches Ok(b) ==> bcrypt_check(password@, hash@) == Some(b),
        r is Err <==> bcrypt_check(password@, hash@) is None,
        r matches Err(e) ==> e == ServerError::InternalError,
{
    match bcrypt_verify(password, hash) {
        Some(b) => Ok(b),
        None => Err(ServerError::InternalError),
    }
}

} // verus!
