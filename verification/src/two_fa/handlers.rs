//! The handlers of the passcode endpoints, from request to response.

use vstd::prelude::*;
use vstd::string::StringExecFns;
use crate::api_error::{ApiError, ApiErrorView};
use crate::clock::{now, CHALLENGE_TTL_SECONDS};
use crate::hasher::bcrypt_verdict;
use crate::identity::identity_by_id;
use crate::otp::{
    after_verify, is_drawn_code, is_fresh_challenge, is_otp_format, lemma_issued_is_fresh,
    otp_challenge_for, otp_verdict,
};
use crate::state::AppState;
use crate::two_fa::models::{
    OtpDelivery, Send2FARequest, Send2FAResponse, Verify2FARequest, Verify2FAResponse,
};
use crate::two_fa::service::{service_result, TwoFAService};

verus! {

/// Sends a passcode to the identity in `payload`: draws it, stores its
/// hash at the current time, and returns the confirmation together with
/// the delivery, which the caller hands to the out-of-band channel.
/// An unknown identity is `NotFound` and leaves the store as it was.
pub fn send_2fa_handler(state: &mut AppState, payload: &Send2FARequest) -> (r: Result<
    (Send2FAResponse, OtpDelivery),
    ApiError,
>)
    requires
        old(state).wf(),
    ensures
        final(state).wf(),
        match r {
            Ok((response, delivery)) => ({
                let found = otp_challenge_for(final(state).otps@, payload.user_id);
                &&& identity_by_id(old(state).users@, payload.user_id) matches Some(identity)
                    && identity.email == delivery.to@
                &&& response.message@ == "OTP sent to "@ + delivery.to@
                &&& response.expires_in_seconds == CHALLENGE_TTL_SECONDS
                &&& is_otp_format(delivery.code@)
                &&& is_drawn_code(delivery.code@)
                &&& found is Some
                &&& is_fresh_challenge(found->0, payload.user_id, delivery.code@)
                &&& found->0.attempts == 0
                &&& found->0.otp_hash != delivery.code@
                &&& bcrypt_verdict(delivery.code@, found->0.otp_hash) == Some(true)
                &&& final(state).otps@ == old(state).otps@.insert(payload.user_id, found->0)
            }),
            Err(e) => final(state).otps@ == old(state).otps@ && (identity_by_id(
                old(state).users@,
                payload.user_id,
            ) is None ==> e@ == ApiErrorView::NotFound("User not found"@)) && (identity_by_id(
                old(state).users@,
                payload.user_id,
            ) is Some ==> e@ == ApiErrorView::Internal("Failed to hash secret"@)),
        },
        final(state).nonces@ == old(state).nonces@,
        final(state).users@ == old(state).users@,
        final(state).admins@ == old(state).admins@,
        final(state).issuer == old(state).issuer,
{
    let email = match TwoFAService::get_user_email(&state.users, payload.user_id) {
        Ok(email) => email,
        Err(e) => {
            return Err(e);
        },
    };
    let code = TwoFAService::generate_otp();
    let at = now();
    match state.otps.issue_at(payload.user_id, code.as_str(), at) {
        Err(e) => Err(e),
        Ok(_) => {
            proof {
                lemma_issued_is_fresh(
                    old(state).otps@,
                    final(state).otps@,
                    payload.user_id,
                    code@,
                    at,
                );
            }
            let message = "OTP sent to ".to_owned().concat(email.as_str());
            let response = Send2FAResponse { message, expires_in_seconds: 300 };
            Ok((response, OtpDelivery { to: email, code }))
        },
    }
}

/// Verifies the passcode in `payload` at the current time. A verified code
/// is confirmed; every rejection is `Unauthorized`.
pub fn verify_2fa_handler(state: &mut AppState, payload: &Verify2FARequest) -> (r: Result<
    Verify2FAResponse,
    ApiError,
>)
    requires
        old(state).wf(),
    ensures
        final(state).wf(),
        r matches Ok(response) ==> response.verified && response.message@
            == "OTP verified successfully"@,
        exists|at: u64|
            at <= i64::MAX && final(state).otps@ == #[trigger] after_verify(
                old(state).otps@,
                payload.user_id,
                payload.otp@,
                at,
            ) && (match service_result(
                otp_verdict(
                    otp_challenge_for(old(state).otps@, payload.user_id),
                    payload.otp@,
                    at,
                ),
            ) {
                Ok(_) => r is Ok,
                Err(e) => r matches Err(got) && got@ == e,
            }),
        final(state).nonces@ == old(state).nonces@,
        final(state).users@ == old(state).users@,
        final(state).admins@ == old(state).admins@,
        final(state).issuer == old(state).issuer,
{
    match TwoFAService::verify_otp_from_db(&mut state.otps, payload.user_id, payload.otp.as_str()) {
        Ok(_) => Ok(
            Verify2FAResponse { message: "OTP verified successfully".to_owned(), verified: true },
        ),
        Err(e) => Err(e),
    }
}

} // verus!
