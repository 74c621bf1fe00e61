//! The passcode service: generation, hashing, storage and verification.

use vstd::prelude::*;
use crate::api_error::{result_view, ApiError, ApiErrorView};
use crate::clock::{now, CHALLENGE_TTL_SECONDS};
use crate::hasher::{bcrypt_verdict, is_hash_of, SecretHasher, BCRYPT_HASH_LEN};
use crate::identity::{identity_by_id, IdentityDirectory};
use crate::otp::{
    after_cleanup, after_verify, generate_otp, is_drawn_code, is_otp_format, issued_otp,
    otp_challenge_for, otp_verdict, six_digits, stale_ids, OtpChallengeStore, OtpOutcome, OTP_MAX,
    OTP_MIN,
};

verus! {

/// The result that a verdict becomes at the service's boundary: `true` for
/// a passcode that matched, and every rejection alike as `Unauthorized`.
pub open spec fn service_result(verdict: Result<OtpOutcome, ApiErrorView>) -> Result<
    bool,
    ApiErrorView,
> {
    match verdict {
        Ok(OtpOutcome::Verified) => Ok(true),
        Ok(_) => Err(ApiErrorView::Unauthorized),
        Err(e) => Err(e),
    }
}

/// The passcode service.
pub struct TwoFAService;

impl TwoFAService {
    /// Draws a passcode uniformly from the six-digit numbers.
    pub fn generate_otp() -> (code: String)
        ensures
            is_otp_format(code@),
            is_drawn_code(code@),
            exists|n: u32| OTP_MIN <= n <= OTP_MAX && code@ == #[trigger] six_digits(n),
    {
        generate_otp()
    }

    /// Hashes a passcode. On success the passcode verifies against the hash.
    pub fn hash_otp(otp: &str) -> (r: Result<String, ApiError>)
        ensures
            match r {
                Ok(hash) => is_hash_of(otp@, hash@) && (otp@.len() != BCRYPT_HASH_LEN ==> hash@ != otp@),
                Err(e) => e@ == ApiErrorView::Internal("Failed to hash secret"@),
            },
    {
        SecretHasher::hash(otp)
    }

    /// Compares a passcode against a hash.
    pub fn verify_otp(otp: &str, hash: &str) -> (r: Result<bool, ApiError>)
        ensures
            match r {
                Ok(matched) => bcrypt_verdict(otp@, hash@) == Some(matched),
                Err(e) => bcrypt_verdict(otp@, hash@) is None && e@ == ApiErrorView::Internal(
                    "Failed to verify secret"@,
                ),
            },
    {
        SecretHasher::verify(otp, hash)
    }

    /// Hashes `otp` and stores the hash as the live passcode of `user_id`
    /// at the current time. Returns the expiry.
    pub fn store_otp(store: &mut OtpChallengeStore, user_id: u128, otp: &str) -> (r: Result<
        u64,
        ApiError,
    >)
        requires
            old(store).wf(),
        ensures
            final(store).wf(),
            match r {
                Ok(expires_at) => exists|hash: Seq<char>, at: u64|
                    #![trigger issued_otp(user_id, hash, at)]
                    at <= i64::MAX && is_hash_of(otp@, hash) && expires_at == at
                        + CHALLENGE_TTL_SECONDS && final(store)@ == old(store)@.insert(
                        user_id,
                        issued_otp(user_id, hash, at),
                    ),
                Err(e) => e@ == ApiErrorView::Internal("Failed to hash secret"@) && final(store)@
                    == old(store)@,
            },
    {
        let at = now();
        store.issue_at(user_id, otp, at)
    }

    /// Verifies `otp` for `user_id` at the current time and advances the
    /// challenge in the same exclusive step.
    pub fn verify_otp_from_db(store: &mut OtpChallengeStore, user_id: u128, otp: &str) -> (r:
        Result<bool, ApiError>)
        requires
            old(store).wf(),
        ensures
            final(store).wf(),
            exists|at: u64|
                at <= i64::MAX && final(store)@ == #[trigger] after_verify(old(store)@, user_id, otp@, at)
                    && result_view(r) == service_result(
                    otp_verdict(otp_challenge_for(old(store)@, user_id), otp@, at),
                ),
    {
        let at = now();
        let r = match store.verify_at(user_id, otp, at) {
            Ok(OtpOutcome::Verified) => Ok(true),
            Ok(_) => Err(ApiError::Unauthorized),
            Err(e) => Err(e),
        };
        assert(final(store)@ == after_verify(old(store)@, user_id, otp@, at));
        r
    }

    /// The contact of the identity `user_id`; `NotFound` where there is no
    /// such identity.
    pub fn get_user_email(users: &IdentityDirectory, user_id: u128) -> (r: Result<String, ApiError>)
        ensures
            match r {
                Ok(email) => identity_by_id(users@, user_id) matches Some(identity)
                    && identity.email == email@,
                Err(e) => identity_by_id(users@, user_id) is None && e@ == ApiErrorView::NotFound(
                    "User not found"@,
                ),
            },
    {
        match users.find_by_id(user_id) {
            Some(identity) => Ok(identity.email.clone()),
            None => Err(ApiError::not_found("User not found")),
        }
    }

    /// Deletes the passcodes whose expiry has passed at the current time
    /// and returns how many were deleted.
    pub fn cleanup_expired_otps(store: &mut OtpChallengeStore) -> (r: Result<u64, ApiError>)
        requires
            old(store).wf(),
        ensures
            final(store).wf(),
            r is Ok,
            exists|at: u64|
                at <= i64::MAX && final(store)@ == #[trigger] after_cleanup(old(store)@, at) && r->Ok_0 == stale_ids(
                    old(store)@,
                    at,
                ).len(),
    {
        let at = now();
        let count = store.cleanup_expired_at(at);
        assert(final(store)@ == after_cleanup(old(store)@, at));
        Ok(count)
    }
}

} // verus!
