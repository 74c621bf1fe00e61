//! The passcode endpoints that answer with a success flag.

use vstd::prelude::*;
use crate::api_error::{result_view, ApiError, ApiErrorView};
use crate::clock::now;
use crate::hasher::bcrypt_verdict;
use crate::identity::identity_by_id;
use crate::otp::{
    after_verify, generate_otp, is_drawn_code, is_fresh_challenge, is_otp_format,
    is_valid_otp_format, lemma_issued_is_fresh, otp_challenge_for, otp_verdict,
};
use crate::state::AppState;
use crate::two_fa::models::OtpDelivery;
use crate::two_fa::service::{service_result, TwoFAService};
use crate::two_fa::verify_otp_from_db;

verus! {

/// A request to send a passcode to an identity.
#[derive(Debug, Clone, Copy, PartialEq, Eq)]
pub struct Send2faRequest {
    pub user_id: u128,
}

/// Whether the passcode was sent, and a text for the user.
#[derive(Debug, Clone, PartialEq, Eq)]
pub struct Send2faResponse {
    pub success: bool,
    pub message: String,
}

/// A passcode submitted for an identity.
#[derive(Debug, Clone, PartialEq, Eq)]
pub struct Verify2faRequest {
    pub user_id: u128,
    pub otp: String,
}

/// Whether the passcode was verified, and a text for the user.
#[derive(Debug, Clone, PartialEq, Eq)]
pub struct Verify2faResponse {
    pub success: bool,
    pub message: String,
}

/// Sends a passcode to the identity in `payload`: draws it, stores its
/// hash at the current time, and returns the confirmation together with
/// the delivery for the out-of-band channel. An unknown identity is
/// `NotFound` and leaves the store as it was.
pub fn send_2fa(state: &mut AppState, payload: &Send2faRequest) -> (r: Result<
    (Send2faResponse, OtpDelivery),
    ApiError,
>)
    requires
        old(state).wf(),
    ensures
        final(state).wf(),
        match r {
            Ok((response, delivery)) => ({
                let found = otp_challenge_for(final(state).otps@, payload.user_id);
                &&& identity_by_id(old(state).users@, payload.user_id) matches Some(identity)
                    && identity.email == delivery.to@
                &&& response.success
                &&& response.message@ == "OTP sent successfully to your email"@
                &&& is_otp_format(delivery.code@)
                &&& is_drawn_code(delivery.code@)
                &&& found is Some
                &&& is_fresh_challenge(found->0, payload.user_id, delivery.code@)
                &&& found->0.attempts == 0
                &&& found->0.otp_hash != delivery.code@
                &&& bcrypt_verdict(delivery.code@, found->0.otp_hash) == Some(true)
                &&& final(state).otps@ == old(state).otps@.insert(payload.user_id, found->0)
            }),
            Err(e) => final(state).otps@ == old(state).otps@ && (identity_by_id(
                old(state).users@,
                payload.user_id,
            ) is None ==> e@ == ApiErrorView::NotFound("User not found"@)) && (identity_by_id(
                old(state).users@,
                payload.user_id,
            ) is Some ==> e@ == ApiErrorView::Internal("Failed to hash secret"@)),
        },
        final(state).nonces@ == old(state).nonces@,
        final(state).users@ == old(state).users@,
        final(state).admins@ == old(state).admins@,
        final(state).issuer == old(state).issuer,
{
    let email = match TwoFAService::get_user_email(&state.users, payload.user_id) {
        Ok(email) => email,
        Err(e) => {
            return Err(e);
        },
    };
    let code = generate_otp();
    let at = now();
    match state.otps.issue_at(payload.user_id, code.as_str(), at) {
        Err(e) => Err(e),
        Ok(_) => {
            proof {
                lemma_issued_is_fresh(
                    old(state).otps@,
                    final(state).otps@,
                    payload.user_id,
                    code@,
                    at,
                );
            }
            let response = Send2faResponse {
                success: true,
                message: "OTP sent successfully to your email".to_owned(),
            };
            Ok((response, OtpDelivery { to: email, code }))
        },
    }
}

/// Verifies the passcode in `payload` at the current time. A text that is
/// not six digits is a `BadRequest` and touches nothing; a verified code is
/// confirmed; every rejection is `Unauthorized`.
pub fn verify_2fa(state: &mut AppState, payload: &Verify2faRequest) -> (r: Result<
    Verify2faResponse,
    ApiError,
>)
    requires
        old(state).wf(),
    ensures
        final(state).wf(),
        r matches Ok(response) ==> response.success && response.message@
            == "OTP verified successfully"@,
        !is_otp_format(payload.otp@) ==> final(state).otps@ == old(state).otps@ && result_view(r)
            == Err::<Verify2faResponse, ApiErrorView>(
            ApiErrorView::BadRequest("Invalid OTP format. Must be 6 digits"@),
        ),
        is_otp_format(payload.otp@) ==> exists|at: u64|
            at <= i64::MAX && final(state).otps@ == #[trigger] after_verify(
                old(state).otps@,
                payload.user_id,
                payload.otp@,
                at,
            ) && (match service_result(
                otp_verdict(
                    otp_challenge_for(old(state).otps@, payload.user_id),
                    payload.otp@,
                    at,
                ),
            ) {
                Ok(_) => r is Ok,
                Err(e) => r matches Err(got) && got@ == e,
            }),
        final(state).nonces@ == old(state).nonces@,
        final(state).users@ == old(state).users@,
        final(state).admins@ == old(state).admins@,
        final(state).issuer == old(state).issuer,
{
    if !is_valid_otp_format(payload.otp.as_str()) {
        return Err(ApiError::bad_request("Invalid OTP format. Must be 6 digits"));
    }
    match verify_otp_from_db(&mut state.otps, payload.user_id, payload.otp.as_str()) {
        Ok(true) => Ok(
            Verify2faResponse { success: true, message: "OTP verified successfully".to_owned() },
        ),
        Ok(false) => Err(ApiError::Unauthorized),
        Err(e) => Err(e),
    }
}

} // verus!
