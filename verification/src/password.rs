use vstd::prelude::*;

use crate::errors::AppError;

verus! {

/// Whether bcrypt verification accepts `digest` for `plaintext`: the digest's
/// embedded cost and salt are used to recompute the salted hash of the
/// plaintext's bytes, and the result is compared against the digest's hash
/// part.  A malformed digest counts as a mismatch.  The outcome is determined
/// by the two arguments alone.
pub uninterp spec fn bcrypt_matches(plaintext: Seq<char>, digest: Seq<char>) -> bool;

#[verifier::external_type_specification]
#[verifier::external_body]
pub struct ExBcryptError(bcrypt::BcryptError);

/// Relies on bcrypt::hash with the crate's default cost: the salt is drawn
/// from the operating system, the digest is always the 60-character bcrypt
/// text form, and bcrypt::verify accepts it for exactly the plaintext that
/// was hashed.
#[verifier::external_body]
fn bcrypt_hash(plaintext: &str) -> (r: Result<String, bcrypt::BcryptError>)
    ensures
        r matches Ok(d) ==> bcrypt_matches(plaintext@, d@) && d@.len() == 60,
{
    bcrypt::hash(plaintext, bcrypt::DEFAULT_COST)
}

/// Relies on bcrypt::verify: a pure function of the password and the digest,
/// with any error on a malformed digest collapsed to a mismatch.
#[verifier::external_body]
fn bcrypt_verify(plaintext: &str, digest: &str) -> (r: bool)
    ensures
        r == bcrypt_matches(plaintext@, digest@),
{
    bcrypt::verify(plaintext, digest).unwrap_or(false)
}

/// Produces a salted one-way digest of `plaintext` at a fixed safe work
/// factor.  The digest is the 60-character bcrypt text form and verifies
/// against exactly the plaintext that was hashed; it fails only on
/// catastrophic collaborator failure, which is reported as an internal
/// error.
pub fn hash_password(plaintext: &str) -> (r: Result<String, AppError>)
    ensures
        r matches Ok(d) ==> bcrypt_matches(plaintext@, d@) && d@.len() == 60,
        r matches Err(e) ==> e == AppError::InternalError,
{
    match bcrypt_hash(plaintext) {
        Ok(d) => Ok(d),
        Err(_) => Err(AppError::InternalError),
    }
}

/// Checks `plaintext` against a stored digest.  Never fails: a malformed
/// digest yields `false`, indistinguishable from a wrong password.
pub fn verify_password(plaintext: &str, digest: &str) -> (r: bool)
    ensures
        r == bcrypt_matches(plaintext@, digest@),
{
    bcrypt_verify(plaintext, digest)
}

} // verus!
