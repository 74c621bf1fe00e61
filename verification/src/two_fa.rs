//! Two-factor authentication by one-time passcode: the functions that
//! request handlers call.

use vstd::prelude::*;
use crate::api_error::{result_view, ApiError, ApiErrorView};
use crate::clock::now;
use crate::hasher::{bcrypt_verdict, is_hash_of, SecretHasher, BCRYPT_HASH_LEN};
use crate::otp::{
    after_cleanup, after_verify, issued_otp, otp_challenge_for, otp_verdict, stale_ids,
    OtpChallengeStore, OtpOutcome,
};

pub mod handlers;
pub mod models;
pub mod service;

pub use crate::otp::generate_otp;
pub use crate::otp::OtpChallenge as TwoFaRecord;
pub use handlers::{send_2fa_handler, verify_2fa_handler};
pub use models::{OtpDelivery, Send2FARequest, Send2FAResponse, Verify2FARequest, Verify2FAResponse};
pub use service::TwoFAService;

verus! {

/// Hashes a passcode. On success the passcode verifies against the hash.
pub fn hash_otp(otp: &str) -> (r: Result<String, ApiError>)
    ensures
        match r {
            Ok(hash) => is_hash_of(otp@, hash@) && (otp@.len() != BCRYPT_HASH_LEN ==> hash@ != otp@),
            Err(e) => e@ == ApiErrorView::Internal("Failed to hash secret"@),
        },
{
    SecretHasher::hash(otp)
}

/// Compares a passcode against a hash: `Ok` of the verdict, or `Internal`
/// exactly where the hash is malformed.
pub fn verify_otp(otp: &str, hash: &str) -> (r: Result<bool, ApiError>)
    ensures
        match r {
            Ok(matched) => bcrypt_verdict(otp@, hash@) == Some(matched),
            Err(e) => bcrypt_verdict(otp@, hash@) is None && e@ == ApiErrorView::Internal(
                "Failed to verify secret"@,
            ),
        },
{
    SecretHasher::verify(otp, hash)
}

/// The result that a verdict becomes at the boundary: `true` for a
/// passcode that matched, `false` for one that did not, and `Unauthorized`
/// where no usable challenge was there to judge it against.
pub open spec fn verification_result(verdict: Result<OtpOutcome, ApiErrorView>) -> Result<
    bool,
    ApiErrorView,
> {
    match verdict {
        Ok(OtpOutcome::Verified) => Ok(true),
        Ok(OtpOutcome::Invalid) => Ok(false),
        Ok(_) => Err(ApiErrorView::Unauthorized),
        Err(e) => Err(e),
    }
}

/// Turns a verdict into the result that it becomes at the boundary.
pub fn verification_result_of(verdict: Result<OtpOutcome, ApiError>) -> (r: Result<bool, ApiError>)
    ensures
        result_view(r) == verification_result(result_view(verdict)),
{
    match verdict {
        Ok(OtpOutcome::Verified) => Ok(true),
        Ok(OtpOutcome::Invalid) => Ok(false),
        Ok(_) => Err(ApiError::Unauthorized),
        Err(e) => Err(e),
    }
}

/// Hashes `otp` and stores the hash as the live passcode of `user_id` at
/// the current time, replacing any earlier one, with no attempt made.
pub fn store_otp(store: &mut OtpChallengeStore, user_id: u128, otp: &str) -> (r: Result<
    (),
    ApiError,
>)
    requires
        old(store).wf(),
    ensures
        final(store).wf(),
        match r {
            Ok(()) => exists|hash: Seq<char>, at: u64|
                #![trigger issued_otp(user_id, hash, at)]
                at <= i64::MAX && is_hash_of(otp@, hash) && final(store)@ == old(store)@.insert(
                    user_id,
                    issued_otp(user_id, hash, at),
                ),
            Err(e) => e@ == ApiErrorView::Internal("Failed to hash secret"@) && final(store)@
                == old(store)@,
        },
{
    let at = now();
    match store.issue_at(user_id, otp, at) {
        Ok(_) => Ok(()),
        Err(e) => Err(e),
    }
}

/// Verifies `otp` for `user_id` at the current time and advances the
/// challenge in the same exclusive step.
pub fn verify_otp_from_db(store: &mut OtpChallengeStore, user_id: u128, otp: &str) -> (r: Result<
    bool,
    ApiError,
>)
    requires
        old(store).wf(),
    ensures
        final(store).wf(),
        exists|at: u64|
            at <= i64::MAX && final(store)@ == #[trigger] after_verify(old(store)@, user_id, otp@, at) && result_view(
                r,
            ) == verification_result(
                otp_verdict(otp_challenge_for(old(store)@, user_id), otp@, at),
            ),
{
    let at = now();
    let verdict = store.verify_at(user_id, otp, at);
    let r = verification_result_of(verdict);
    assert(final(store)@ == after_verify(old(store)@, user_id, otp@, at));
    r
}

/// Deletes the passcodes whose expiry has passed at the current time and
/// returns how many were deleted.
pub fn cleanup_expired_otps(store: &mut OtpChallengeStore) -> (r: Result<u64, ApiError>)
    requires
        old(store).wf(),
    ensures
        final(store).wf(),
        r is Ok,
        exists|at: u64|
            at <= i64::MAX && final(store)@ == #[trigger] after_cleanup(old(store)@, at) && r->Ok_0 == stale_ids(
                old(store)@,
                at,
            ).len(),
{
    let at = now();
    let count = store.cleanup_expired_at(at);
    assert(final(store)@ == after_cleanup(old(store)@, at));
    Ok(count)
}

} // verus!
