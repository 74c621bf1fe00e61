//! One-way hashing of short-lived secrets, salted afresh on every call.

use vstd::prelude::*;
use crate::api_error::{ApiError, ApiErrorView};

verus! {

/// The length of every hash that `bcrypt::hash` returns: a version, a
/// two-digit cost, 22 characters of salt and 31 of digest, with their
/// three separators.
pub const BCRYPT_HASH_LEN: usize = 60;

/// What `bcrypt::verify` returns for a secret and a stored hash: `Some(true)`
/// where the hash was made from the secret, `Some(false)` where it was made
/// from another, `None` where the hash is malformed.
pub uninterp spec fn bcrypt_verdict(secret: Seq<char>, hash: Seq<char>) -> Option<bool>;

/// Calls `bcrypt::hash` at the default cost. The salt is random, so the hash
/// differs from call to call; what is claimed is that `bcrypt::verify` accepts
/// the secret against any hash that comes back, since it recomputes the hash
/// from the same salt and cost, and that the hash has the fixed length of
/// the format `$2b$12$` followed by salt and digest.
#[verifier::external_body]
fn bcrypt_hash(secret: &str) -> (hash: Option<String>)
    ensures
        hash matches Some(h) ==> bcrypt_verdict(secret@, h@) == Some(true),
        hash matches Some(h) ==> h@.len() == BCRYPT_HASH_LEN,
{
    bcrypt::hash(secret, bcrypt::DEFAULT_COST).ok()
}

/// Calls `bcrypt::verify`, which depends on its two arguments alone.
#[verifier::external_body]
fn bcrypt_verify(secret: &str, hash: &str) -> (verdict: Option<bool>)
    ensures
        verdict == bcrypt_verdict(secret@, hash@),
{
    bcrypt::verify(secret, hash).ok()
}

/// Whether `hash` is what the hasher makes of `secret`: the secret
/// verifies against it, and it has the hasher's length, so that it is the
/// secret itself for no secret of another length.
pub open spec fn is_hash_of(secret: Seq<char>, hash: Seq<char>) -> bool {
    bcrypt_verdict(secret, hash) == Some(true) && hash.len() == BCRYPT_HASH_LEN
}

/// Hashes secrets and compares a candidate against a stored hash.
pub struct SecretHasher;

impl SecretHasher {
    /// Hashes `secret`. On success the secret verifies against the hash,
    /// which is 60 characters long whatever the secret; a failure of the
    /// primitive is an `Internal` error.
    pub fn hash(secret: &str) -> (r: Result<String, ApiError>)
        ensures
            match r {
                Ok(h) => is_hash_of(secret@, h@),
                Err(e) => e@ == ApiErrorView::Internal("Failed to hash secret"@),
            },
    {
        match bcrypt_hash(secret) {
            Some(h) => Ok(h),
            None => Err(ApiError::internal("Failed to hash secret")),
        }
    }

    /// Compares `secret` against `hash`: `Ok` of the verdict, or an `Internal`
    /// error exactly where the hash is malformed.
    pub fn verify(secret: &str, hash: &str) -> (r: Result<bool, ApiError>)
        ensures
            match r {
                Ok(b) => bcrypt_verdict(secret@, hash@) == Some(b),
                Err(e) => bcrypt_verdict(secret@, hash@) is None
                    && e@ == ApiErrorView::Internal("Failed to verify secret"@),
            },
    {
        match bcrypt_verify(secret, hash) {
            Some(b) => Ok(b),
            None => Err(ApiError::internal("Failed to verify secret")),
        }
    }
}

} // verus!
