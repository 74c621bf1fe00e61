//! The authentication flows: nonce request, wallet login, password login,
//! and the request and verification of a one-time passcode.

use vstd::prelude::*;
use vstd::utf8::encode_utf8;
use crate::api_error::{result_view, ApiError, ApiErrorView};
use crate::clock::{now, CHALLENGE_TTL_SECONDS, DEFAULT_TOKEN_TTL_SECONDS};
use crate::hasher::{bcrypt_verdict, is_hash_of};
use crate::identity::{
    admin_by_id, admin_password_verdict, after_resolve, identity_by_id, password_verdict,
    resolved_identity, AdminDirectory, IdentityDirectory, IdentityView,
};
use crate::nonce::{
    after_issue, challenge_for, uuid_text_of, Challenges, WalletChallenge, WalletChallengeView,
};
use crate::otp::{
    after_verify, format_otp, is_drawn_code, is_fresh_challenge, is_otp_format, issued_otp,
    lemma_issued_is_fresh, otp_challenge_for, otp_verdict, six_digits, OtpChallengeStore,
    OtpOutcome, OTP_MAX, OTP_MIN,
};
use crate::random::{fresh_id, system_random_bytes};
use crate::signature::{public_key_of, verdict_under_key, SignatureVerifier};
use crate::state::AppState;
use crate::token::{
    admin_claims_in, admin_claims_issued, admin_issue_result, user_claims_in, user_claims_issued,
    user_issue_result, AdminClaimsView, UserClaimsView,
};
pub use crate::token::{AdminClaims, UserClaims};

pub use crate::gateway::{AuthenticatedAdmin, AuthenticatedUser};

verus! {

/// The nonce that a wallet has to sign.
#[derive(Debug, Clone, PartialEq, Eq)]
pub struct NonceResponse {
    pub nonce: String,
}

/// A request for a nonce.
#[derive(Debug, Clone, PartialEq, Eq)]
pub struct NonceRequest {
    pub wallet_address: String,
}

/// A wallet login: the address and the signature of its nonce, in hexadecimal.
#[derive(Debug, Clone, PartialEq, Eq)]
pub struct Web3LoginRequest {
    pub wallet_address: String,
    pub signature: String,
}

/// A wallet login, under its other name.
pub type WalletLoginRequest = Web3LoginRequest;

/// A login by contact and password.
#[derive(Debug, Clone, PartialEq, Eq)]
pub struct LoginRequest {
    pub email: String,
    pub password: String,
}

/// The bearer token of a login.
#[derive(Debug, Clone, PartialEq, Eq)]
pub struct LoginResponse {
    pub token: String,
}

/// A request to send a passcode to an identity.
#[derive(Debug, Clone, Copy, PartialEq, Eq)]
pub struct Send2faRequest {
    pub user_id: u128,
}

/// A passcode submitted for an identity.
#[derive(Debug, Clone, PartialEq, Eq)]
pub struct Verify2faRequest {
    pub user_id: u128,
    pub otp: String,
}

/// The confirmation of a passcode flow.
#[derive(Debug, Clone, PartialEq, Eq)]
pub struct TwoFaResponse {
    pub message: String,
}

/// Issues a nonce to the address in `payload` at the current time: the
/// hyphenated text of a freshly drawn identifier. Any nonce issued earlier
/// to the address stops being valid.
pub fn get_nonce(state: &mut AppState, payload: &NonceRequest) -> (r: Result<NonceResponse, ApiError>)
    requires
        old(state).wf(),
    ensures
        final(state).wf(),
        r is Ok,
        exists|at: u64|
            at <= i64::MAX && final(state).nonces@ == #[trigger] after_issue(
                old(state).nonces@,
                payload.wallet_address@,
                r->Ok_0.nonce@,
                at,
            ),
        exists|id: u128| r->Ok_0.nonce@ == uuid_text_of(id),
        r->Ok_0.nonce@.len() == 36,
        final(state).otps@ == old(state).otps@,
        final(state).users@ == old(state).users@,
        final(state).admins@ == old(state).admins@,
        final(state).issuer == old(state).issuer,
{
    let nonce = state.nonces.issue(payload.wallet_address.as_str());
    let ghost issued = nonce@;
    let r = Ok(NonceResponse { nonce });
    assert(r->Ok_0.nonce@ == issued);
    r
}

/// Issues a nonce to `wallet_address`, as [`get_nonce`] does.
pub fn generate_nonce(state: &mut AppState, wallet_address: String) -> (r: Result<
    NonceResponse,
    ApiError,
>)
    requires
        old(state).wf(),
    ensures
        final(state).wf(),
        r is Ok,
        exists|at: u64|
            at <= i64::MAX && final(state).nonces@ == #[trigger] after_issue(
                old(state).nonces@,
                wallet_address@,
                r->Ok_0.nonce@,
                at,
            ),
        exists|id: u128| r->Ok_0.nonce@ == uuid_text_of(id),
        r->Ok_0.nonce@.len() == 36,
        final(state).otps@ == old(state).otps@,
        final(state).users@ == old(state).users@,
        final(state).admins@ == old(state).admins@,
        final(state).issuer == old(state).issuer,
{
    get_nonce(state, &NonceRequest { wallet_address })
}

/// How a wallet login is judged once the signature has been checked
/// against the nonce of the challenge found: a missing or expired nonce is
/// `Unauthorized`; then a malformed signature is a `BadRequest`; then a
/// signature that does not sign exactly the nonce's text is `Unauthorized`.
/// On success the verdict is the nonce that the login spends.
pub open spec fn login_step(
    found: Option<WalletChallengeView>,
    verdict: Result<bool, ApiErrorView>,
    at: u64,
) -> Result<Seq<char>, ApiErrorView> {
    match found {
        None => Err(ApiErrorView::Unauthorized),
        Some(challenge) => if at > challenge.expires_at {
            Err(ApiErrorView::Unauthorized)
        } else {
            match verdict {
                Err(e) => Err(e),
                Ok(false) => Err(ApiErrorView::Unauthorized),
                Ok(true) => Ok(challenge.nonce),
            }
        },
    }
}

/// Whether a wallet login proves possession of the key: a malformed
/// address is a `BadRequest`, before anything else; the rest is judged as
/// [`login_step`] says, the signature checked over the nonce's text and
/// nothing more.
pub open spec fn wallet_login_verdict(
    nonces: Challenges,
    address: Seq<char>,
    signature: Seq<char>,
    at: u64,
) -> Result<Seq<char>, ApiErrorView> {
    match public_key_of(address) {
        Err(e) => Err(e),
        Ok(key) => {
            let found = challenge_for(nonces, address);
            login_step(
                found,
                match found {
                    Some(challenge) => verdict_under_key(
                        key,
                        encode_utf8(challenge.nonce),
                        signature,
                    ),
                    None => Ok(false),
                },
                at,
            )
        },
    }
}

/// Judges a wallet login from the challenge found and the verdict on the
/// signature.
pub fn judge_wallet_login(found: Option<&WalletChallenge>, verdict: Result<bool, ApiError>, at: u64) -> (r:
    Result<(), ApiError>)
    ensures
        match r {
            Ok(()) => login_step(
                match found {
                    Some(c) => Some(c@),
                    None => None,
                },
                result_view(verdict),
                at,
            ) is Ok,
            Err(e) => login_step(
                match found {
                    Some(c) => Some(c@),
                    None => None,
                },
                result_view(verdict),
                at,
            ) == Err::<Seq<char>, ApiErrorView>(e@),
        },
{
    match found {
        None => Err(ApiError::Unauthorized),
        Some(challenge) => {
            if at > challenge.expires_at {
                Err(ApiError::Unauthorized)
            } else {
                match verdict {
                    Err(e) => Err(e),
                    Ok(false) => Err(ApiError::Unauthorized),
                    Ok(true) => Ok(()),
                }
            }
        },
    }
}

/// The claims of a token issued to an identity at `at` with the default
/// lifetime.
pub open spec fn login_claims(identity: IdentityView, at: u64) -> Option<UserClaimsView> {
    user_claims_issued(
        UserClaimsView { user_id: identity.id, email: identity.email, exp: 0 },
        DEFAULT_TOKEN_TTL_SECONDS,
        at,
    )
}

/// The token of a login by an identity at `at`: the signed claims, or
/// `Internal` where their expiry cannot be represented.
pub open spec fn login_token(identity: IdentityView, at: u64, secret: Seq<u8>) -> Result<
    Seq<char>,
    ApiErrorView,
> {
    user_issue_result(
        UserClaimsView { user_id: identity.id, email: identity.email, exp: 0 },
        DEFAULT_TOKEN_TTL_SECONDS,
        at,
        secret,
    )
}

/// The claims of a token issued to an administrator at `at` with the
/// default lifetime.
pub open spec fn admin_login_claims(admin: crate::identity::AdminView, at: u64) -> Option<
    AdminClaimsView,
> {
    admin_claims_issued(
        AdminClaimsView { admin_id: admin.id, email: admin.email, role: admin.role, exp: 0 },
        DEFAULT_TOKEN_TTL_SECONDS,
        at,
    )
}

/// What a wallet login returns: the verdict on the proof, and then the
/// token of the identity that the address resolves to.
pub open spec fn wallet_login_result(
    nonces: Challenges,
    identities: Seq<IdentityView>,
    address: Seq<char>,
    signature: Seq<char>,
    at: u64,
    fresh: u128,
    secret: Seq<u8>,
) -> Result<Seq<char>, ApiErrorView> {
    match wallet_login_verdict(nonces, address, signature, at) {
        Err(e) => Err(e),
        Ok(_) => login_token(resolved_identity(identities, address, fresh, at), at, secret),
    }
}

/// The nonces after a wallet login: the nonce is spent on success and an
/// expired one is purged; on any other failure nothing changes.
pub open spec fn nonces_after_login(
    nonces: Challenges,
    address: Seq<char>,
    at: u64,
    succeeded: bool,
) -> Challenges {
    if succeeded {
        nonces.remove(address)
    } else if public_key_of(address) is Ok && challenge_for(nonces, address) is Some && at
        > challenge_for(nonces, address)->0.expires_at {
        nonces.remove(address)
    } else {
        nonces
    }
}

/// The identities after a wallet login: the address is resolved, and an
/// identity created for it, once the proof has been accepted.
pub open spec fn identities_after_login(
    nonces: Challenges,
    identities: Seq<IdentityView>,
    address: Seq<char>,
    signature: Seq<char>,
    at: u64,
    fresh: u128,
) -> Seq<IdentityView> {
    if wallet_login_verdict(nonces, address, signature, at) is Ok {
        after_resolve(identities, address, fresh, at)
    } else {
        identities
    }
}

/// Logs a wallet in at the instant `at`: checks the signature over the live
/// nonce of the address, resolves the address to an identity (created with
/// the identifier `fresh` on a first login), issues its token, and spends
/// the nonce, all in one exclusive step. A second login with the same
/// signature finds no nonce.
pub fn web3_login_at(state: &mut AppState, payload: &Web3LoginRequest, at: u64, fresh: u128) -> (r:
    Result<LoginResponse, ApiError>)
    requires
        old(state).wf(),
    ensures
        final(state).wf(),
        match r {
            Ok(response) => wallet_login_result(
                old(state).nonces@,
                old(state).users@,
                payload.wallet_address@,
                payload.signature@,
                at,
                fresh,
                old(state).issuer.secret(),
            ) == Ok::<Seq<char>, ApiErrorView>(response.token@),
            Err(e) => wallet_login_result(
                old(state).nonces@,
                old(state).users@,
                payload.wallet_address@,
                payload.signature@,
                at,
                fresh,
                old(state).issuer.secret(),
            ) == Err::<Seq<char>, ApiErrorView>(e@),
        },
        r matches Ok(response) ==> user_claims_in(response.token@, old(state).issuer.secret())
            == login_claims(
            resolved_identity(old(state).users@, payload.wallet_address@, fresh, at),
            at,
        ) && login_claims(
            resolved_identity(old(state).users@, payload.wallet_address@, fresh, at),
            at,
        ) is Some,
        final(state).nonces@ == nonces_after_login(
            old(state).nonces@,
            payload.wallet_address@,
            at,
            r is Ok,
        ),
        final(state).users@ == identities_after_login(
            old(state).nonces@,
            old(state).users@,
            payload.wallet_address@,
            payload.signature@,
            at,
            fresh,
        ),
        final(state).otps@ == old(state).otps@,
        final(state).admins@ == old(state).admins@,
        final(state).issuer == old(state).issuer,
{
    let address = payload.wallet_address.as_str();
    let key = match SignatureVerifier::decode_public_key(address) {
        Ok(key) => key,
        Err(e) => {
            return Err(e);
        },
    };
    let found = state.nonces.get(address);
    let verdict = match found {
        None => Ok(false),
        Some(challenge) => {
            if at > challenge.expires_at {
                Ok(false)
            } else {
                SignatureVerifier::verify_with_key(
                    key.as_slice(),
                    challenge.nonce.as_str().as_bytes(),
                    payload.signature.as_str(),
                )
            }
        },
    };
    let judged = judge_wallet_login(found, verdict, at);
    let (nonce, expired) = match found {
        Some(challenge) => (challenge.nonce.clone(), at > challenge.expires_at),
        None => (String::new(), false),
    };
    match judged {
        Ok(()) => {},
        Err(e) => {
            if expired {
                // an expired nonce is purged on the way out
                let _ = state.nonces.consume_at(address, nonce.as_str(), at);
            }
            return Err(e);
        },
    }
    let (user_id, email) = state.users.resolve_or_create_with(address, fresh, at);
    let claims = UserClaims { user_id, email, exp: 0 };
    let token = match state.issuer.issue_at(&claims, DEFAULT_TOKEN_TTL_SECONDS, at) {
        Ok(token) => token,
        Err(e) => {
            return Err(e);
        },
    };
    match state.nonces.consume_at(address, nonce.as_str(), at) {
        Ok(()) => Ok(LoginResponse { token }),
        Err(_) => Err(ApiError::Unauthorized),
    }
}

/// Logs a wallet in at the current time, as [`web3_login_at`] does.
pub fn web3_login(state: &mut AppState, payload: &Web3LoginRequest) -> (r: Result<
    LoginResponse,
    ApiError,
>)
    requires
        old(state).wf(),
    ensures
        final(state).wf(),
        exists|at: u64, fresh: u128|
            at <= i64::MAX && final(state).nonces@ == #[trigger] nonces_after_login(
                old(state).nonces@,
                payload.wallet_address@,
                at,
                r is Ok,
            ) && final(state).users@ == #[trigger] identities_after_login(
                old(state).nonces@,
                old(state).users@,
                payload.wallet_address@,
                payload.signature@,
                at,
                fresh,
            ) && (match r {
                Ok(response) => wallet_login_result(
                    old(state).nonces@,
                    old(state).users@,
                    payload.wallet_address@,
                    payload.signature@,
                    at,
                    fresh,
                    old(state).issuer.secret(),
                ) == Ok::<Seq<char>, ApiErrorView>(response.token@),
                Err(e) => wallet_login_result(
                    old(state).nonces@,
                    old(state).users@,
                    payload.wallet_address@,
                    payload.signature@,
                    at,
                    fresh,
                    old(state).issuer.secret(),
                ) == Err::<Seq<char>, ApiErrorView>(e@),
            }) && (r is Ok ==> user_claims_in(r->Ok_0.token@, old(state).issuer.secret())
                == login_claims(
                resolved_identity(old(state).users@, payload.wallet_address@, fresh, at),
                at,
            ) && login_claims(
                resolved_identity(old(state).users@, payload.wallet_address@, fresh, at),
                at,
            ) is Some),
        final(state).otps@ == old(state).otps@,
        final(state).admins@ == old(state).admins@,
        final(state).issuer == old(state).issuer,
{
    let at = now();
    let fresh = fresh_id();
    web3_login_at(state, payload, at, fresh)
}

/// Logs a wallet in at the current time, as [`web3_login`] does.
pub fn wallet_login(state: &mut AppState, payload: &WalletLoginRequest) -> (r: Result<
    LoginResponse,
    ApiError,
>)
    requires
        old(state).wf(),
    ensures
        final(state).wf(),
        exists|at: u64, fresh: u128|
            at <= i64::MAX && final(state).nonces@ == #[trigger] nonces_after_login(
                old(state).nonces@,
                payload.wallet_address@,
                at,
                r is Ok,
            ) && final(state).users@ == #[trigger] identities_after_login(
                old(state).nonces@,
                old(state).users@,
                payload.wallet_address@,
                payload.signature@,
                at,
                fresh,
            ) && (match r {
                Ok(response) => wallet_login_result(
                    old(state).nonces@,
                    old(state).users@,
                    payload.wallet_address@,
                    payload.signature@,
                    at,
                    fresh,
                    old(state).issuer.secret(),
                ) == Ok::<Seq<char>, ApiErrorView>(response.token@),
                Err(e) => wallet_login_result(
                    old(state).nonces@,
                    old(state).users@,
                    payload.wallet_address@,
                    payload.signature@,
                    at,
                    fresh,
                    old(state).issuer.secret(),
                ) == Err::<Seq<char>, ApiErrorView>(e@),
            }) && (r is Ok ==> user_claims_in(r->Ok_0.token@, old(state).issuer.secret())
                == login_claims(
                resolved_identity(old(state).users@, payload.wallet_address@, fresh, at),
                at,
            ) && login_claims(
                resolved_identity(old(state).users@, payload.wallet_address@, fresh, at),
                at,
            ) is Some),
        final(state).otps@ == old(state).otps@,
        final(state).admins@ == old(state).admins@,
        final(state).issuer == old(state).issuer,
{
    web3_login(state, payload)
}

/// What a login by contact and password returns at `at`.
pub open spec fn user_login_result(
    identities: Seq<IdentityView>,
    email: Seq<char>,
    password: Seq<char>,
    at: u64,
    secret: Seq<u8>,
) -> Result<Seq<char>, ApiErrorView> {
    match password_verdict(identities, email, password) {
        Err(e) => Err(e),
        Ok(identity) => login_token(identity, at, secret),
    }
}

/// Logs a user in by contact and password at the instant `at` and issues
/// the token. Nothing changes.
pub fn login_user_at(state: &AppState, payload: &LoginRequest, at: u64) -> (r: Result<
    LoginResponse,
    ApiError,
>)
    ensures
        match r {
            Ok(response) => user_login_result(
                state.users@,
                payload.email@,
                payload.password@,
                at,
                state.issuer.secret(),
            ) == Ok::<Seq<char>, ApiErrorView>(response.token@),
            Err(e) => user_login_result(
                state.users@,
                payload.email@,
                payload.password@,
                at,
                state.issuer.secret(),
            ) == Err::<Seq<char>, ApiErrorView>(e@),
        },
        r matches Ok(response) ==> password_verdict(
            state.users@,
            payload.email@,
            payload.password@,
        ) matches Ok(identity) && login_claims(identity, at) is Some && user_claims_in(
            response.token@,
            state.issuer.secret(),
        ) == login_claims(identity, at),
{
    let identity = match state.users.sign_in(payload.email.as_str(), payload.password.as_str()) {
        Ok(identity) => identity,
        Err(e) => {
            return Err(e);
        },
    };
    let claims = UserClaims { user_id: identity.id, email: identity.email.clone(), exp: 0 };
    match state.issuer.issue_at(&claims, DEFAULT_TOKEN_TTL_SECONDS, at) {
        Ok(token) => Ok(LoginResponse { token }),
        Err(e) => Err(e),
    }
}

/// Logs a user in by contact and password at the current time.
pub fn login_user(state: &AppState, payload: &LoginRequest) -> (r: Result<LoginResponse, ApiError>)
    ensures
        exists|at: u64|
            at <= i64::MAX && (match r {
                Ok(response) => #[trigger] user_login_result(
                    state.users@,
                    payload.email@,
                    payload.password@,
                    at,
                    state.issuer.secret(),
                ) == Ok::<Seq<char>, ApiErrorView>(response.token@),
                Err(e) => user_login_result(
                    state.users@,
                    payload.email@,
                    payload.password@,
                    at,
                    state.issuer.secret(),
                ) == Err::<Seq<char>, ApiErrorView>(e@),
            }) && (r is Ok ==> user_claims_in(r->Ok_0.token@, state.issuer.secret())
                == login_claims(
                password_verdict(state.users@, payload.email@, payload.password@)->Ok_0,
                at,
            )),
        r is Ok <==> password_verdict(state.users@, payload.email@, payload.password@) is Ok,
{
    let at = now();
    login_user_at(state, payload, at)
}

/// What an administrator's login returns at `at`.
pub open spec fn admin_login_result(
    admins: Seq<crate::identity::AdminView>,
    email: Seq<char>,
    password: Seq<char>,
    at: u64,
    secret: Seq<u8>,
) -> Result<Seq<char>, ApiErrorView> {
    match admin_password_verdict(admins, email, password) {
        Err(e) => Err(e),
        Ok(admin) => admin_issue_result(
            AdminClaimsView { admin_id: admin.id, email: admin.email, role: admin.role, exp: 0 },
            DEFAULT_TOKEN_TTL_SECONDS,
            at,
            secret,
        ),
    }
}

/// Logs an administrator in at the instant `at` and issues the token. A
/// locked account is refused before its password is looked at.
pub fn login_admin_at(state: &AppState, payload: &LoginRequest, at: u64) -> (r: Result<
    LoginResponse,
    ApiError,
>)
    ensures
        match r {
            Ok(response) => admin_login_result(
                state.admins@,
                payload.email@,
                payload.password@,
                at,
                state.issuer.secret(),
            ) == Ok::<Seq<char>, ApiErrorView>(response.token@),
            Err(e) => admin_login_result(
                state.admins@,
                payload.email@,
                payload.password@,
                at,
                state.issuer.secret(),
            ) == Err::<Seq<char>, ApiErrorView>(e@),
        },
        r matches Ok(response) ==> admin_password_verdict(
            state.admins@,
            payload.email@,
            payload.password@,
        ) matches Ok(admin) && admin_login_claims(admin, at) is Some && admin_claims_in(
            response.token@,
            state.issuer.secret(),
        ) == admin_login_claims(admin, at),
{
    let admin = match state.admins.sign_in(payload.email.as_str(), payload.password.as_str()) {
        Ok(admin) => admin,
        Err(e) => {
            return Err(e);
        },
    };
    let claims = AdminClaims {
        admin_id: admin.id,
        email: admin.email.clone(),
        role: admin.role.clone(),
        exp: 0,
    };
    match state.issuer.issue_admin_at(&claims, DEFAULT_TOKEN_TTL_SECONDS, at) {
        Ok(token) => Ok(LoginResponse { token }),
        Err(e) => Err(e),
    }
}

/// Logs an administrator in at the current time.
pub fn login_admin(state: &AppState, payload: &LoginRequest) -> (r: Result<LoginResponse, ApiError>)
    ensures
        exists|at: u64|
            at <= i64::MAX && (match r {
                Ok(response) => #[trigger] admin_login_result(
                    state.admins@,
                    payload.email@,
                    payload.password@,
                    at,
                    state.issuer.secret(),
                ) == Ok::<Seq<char>, ApiErrorView>(response.token@),
                Err(e) => admin_login_result(
                    state.admins@,
                    payload.email@,
                    payload.password@,
                    at,
                    state.issuer.secret(),
                ) == Err::<Seq<char>, ApiErrorView>(e@),
            }) && (r is Ok ==> admin_claims_in(r->Ok_0.token@, state.issuer.secret())
                == admin_login_claims(
                admin_password_verdict(state.admins@, payload.email@, payload.password@)->Ok_0,
                at,
            )),
        r is Ok <==> admin_password_verdict(state.admins@, payload.email@, payload.password@)
            is Ok,
{
    let at = now();
    login_admin_at(state, payload, at)
}

/// Succeeds exactly where an identity with the identifier exists.
pub fn verify_user_exists(users: &IdentityDirectory, user_id: u128) -> (r: Result<(), ApiError>)
    ensures
        r is Ok <==> identity_by_id(users@, user_id) is Some,
        r matches Err(e) ==> e@ == ApiErrorView::Unauthorized,
{
    match users.find_by_id(user_id) {
        Some(_) => Ok(()),
        None => Err(ApiError::Unauthorized),
    }
}

/// Succeeds exactly where an administrator with the identifier exists.
pub fn verify_admin_exists(admins: &AdminDirectory, admin_id: u128) -> (r: Result<(), ApiError>)
    ensures
        r is Ok <==> admin_by_id(admins@, admin_id) is Some,
        r matches Err(e) ==> e@ == ApiErrorView::Unauthorized,
{
    match admins.find_by_id(admin_id) {
        Some(_) => Ok(()),
        None => Err(ApiError::Unauthorized),
    }
}

/// The number that four bytes stand for, the first byte the highest.
pub open spec fn be_u32(bytes: Seq<u8>) -> int {
    bytes[0] * 0x100_0000 + bytes[1] * 0x1_0000 + bytes[2] * 0x100 + bytes[3]
}

/// The six-digit number that four random bytes are folded into.
pub open spec fn otp_number(bytes: Seq<u8>) -> int {
    be_u32(bytes) % 900_000 + 100_000
}

/// Folds four random bytes into a passcode: a number from 100000 to 999999,
/// written in decimal.
pub fn otp_from_bytes(bytes: [u8; 4]) -> (code: String)
    ensures
        OTP_MIN <= otp_number(bytes@) <= OTP_MAX,
        code@ == six_digits(otp_number(bytes@) as u32),
        is_otp_format(code@),
{
    let word: u32 = (bytes[0] as u32) * 0x100_0000 + (bytes[1] as u32) * 0x1_0000 + (
    bytes[2] as u32) * 0x100 + (bytes[3] as u32);
    let number: u32 = word % 900_000 + 100_000;
    format_otp(number)
}

/// How a request for a passcode is judged: the identity must exist.
pub open spec fn send_2fa_verdict(identities: Seq<IdentityView>, user_id: u128) -> Result<
    (),
    ApiErrorView,
> {
    match identity_by_id(identities, user_id) {
        None => Err(ApiErrorView::NotFound("User not found"@)),
        Some(_) => Ok(()),
    }
}

/// Stores the hash of `code` as the live passcode of the identity in
/// `payload` at the instant `at`, with no attempt made. An unknown identity
/// is `NotFound`; a failure of the hasher is `Internal`; either leaves the
/// store as it was.
pub fn send_2fa_with(state: &mut AppState, payload: &Send2faRequest, code: &str, at: u64) -> (r:
    Result<TwoFaResponse, ApiError>)
    requires
        old(state).wf(),
        at + CHALLENGE_TTL_SECONDS <= u64::MAX,
    ensures
        final(state).wf(),
        match r {
            Ok(response) => send_2fa_verdict(old(state).users@, payload.user_id) is Ok
                && response.message@ == "OTP sent successfully"@ && exists|hash: Seq<char>|
                #![trigger issued_otp(payload.user_id, hash, at)]
                is_hash_of(code@, hash) && final(state).otps@ == old(
                    state,
                ).otps@.insert(payload.user_id, issued_otp(payload.user_id, hash, at)),
            Err(e) => final(state).otps@ == old(state).otps@ && (send_2fa_verdict(
                old(state).users@,
                payload.user_id,
            ) matches Err(expected) ==> e@ == expected) && (send_2fa_verdict(
                old(state).users@,
                payload.user_id,
            ) is Ok ==> e@ == ApiErrorView::Internal("Failed to hash secret"@)),
        },
        final(state).nonces@ == old(state).nonces@,
        final(state).users@ == old(state).users@,
        final(state).admins@ == old(state).admins@,
        final(state).issuer == old(state).issuer,
{
    if state.users.find_by_id(payload.user_id).is_none() {
        return Err(ApiError::not_found("User not found"));
    }
    match state.otps.issue_at(payload.user_id, code, at) {
        Ok(_) => Ok(TwoFaResponse { message: "OTP sent successfully".to_owned() }),
        Err(e) => Err(e),
    }
}

/// Draws a passcode from the system's random generator, a number from
/// 100000 to 999999, stores its hash for the identity in `payload` at the
/// current time with no attempt made and five minutes to live, and returns
/// the confirmation together with the code, which the caller hands to the
/// out-of-band channel and to nobody else.
pub fn send_2fa(state: &mut AppState, payload: &Send2faRequest) -> (r: Result<
    (TwoFaResponse, String),
    ApiError,
>)
    requires
        old(state).wf(),
    ensures
        final(state).wf(),
        match r {
            Ok((response, code)) => ({
                let found = otp_challenge_for(final(state).otps@, payload.user_id);
                &&& is_otp_format(code@)
                &&& response.message@ == "OTP sent successfully"@
                &&& send_2fa_verdict(old(state).users@, payload.user_id) is Ok
                &&& is_drawn_code(code@)
                &&& found is Some
                &&& is_fresh_challenge(found->0, payload.user_id, code@)
                &&& found->0.attempts == 0
                &&& found->0.otp_hash != code@
                &&& bcrypt_verdict(code@, found->0.otp_hash) == Some(true)
                &&& final(state).otps@ == old(state).otps@.insert(payload.user_id, found->0)
            }),
            Err(e) => final(state).otps@ == old(state).otps@ && (send_2fa_verdict(
                old(state).users@,
                payload.user_id,
            ) matches Err(expected) ==> e@ == expected) && (send_2fa_verdict(
                old(state).users@,
                payload.user_id,
            ) is Ok ==> e@ is Internal),
        },
        final(state).nonces@ == old(state).nonces@,
        final(state).users@ == old(state).users@,
        final(state).admins@ == old(state).admins@,
        final(state).issuer == old(state).issuer,
{
    if state.users.find_by_id(payload.user_id).is_none() {
        return Err(ApiError::not_found("User not found"));
    }
    let bytes = match system_random_bytes() {
        Some(bytes) => bytes,
        None => {
            return Err(ApiError::internal("Failed to generate random bytes"));
        },
    };
    let ghost bytes_drawn = bytes@;
    let code = otp_from_bytes(bytes);
    let at = now();
    match send_2fa_with(state, payload, code.as_str(), at) {
        Ok(response) => {
            proof {
                lemma_issued_is_fresh(
                    old(state).otps@,
                    final(state).otps@,
                    payload.user_id,
                    code@,
                    at,
                );
                assert(is_drawn_code(code@)) by {
                    assert(code@ == six_digits(otp_number(bytes_drawn) as u32));
                }
            }
            Ok((response, code))
        },
        Err(e) => Err(e),
    }
}

/// What the caller of a verification sees: success where the code was
/// verified; every rejection alike as `Unauthorized`; a failure of the
/// hasher as `Internal`.
pub open spec fn verify_2fa_result(verdict: Result<OtpOutcome, ApiErrorView>) -> Result<
    (),
    ApiErrorView,
> {
    match verdict {
        Ok(OtpOutcome::Verified) => Ok(()),
        Ok(_) => Err(ApiErrorView::Unauthorized),
        Err(e) => Err(e),
    }
}

/// Verifies `otp` for `user_id` at the instant `at` and advances the
/// challenge in the same exclusive step.
pub fn verify_2fa_internal_at(otps: &mut OtpChallengeStore, user_id: u128, otp: &str, at: u64) -> (r:
    Result<(), ApiError>)
    requires
        old(otps).wf(),
    ensures
        final(otps).wf(),
        match r {
            Ok(()) => verify_2fa_result(
                otp_verdict(otp_challenge_for(old(otps)@, user_id), otp@, at),
            ) is Ok,
            Err(e) => verify_2fa_result(
                otp_verdict(otp_challenge_for(old(otps)@, user_id), otp@, at),
            ) == Err::<(), ApiErrorView>(e@),
        },
        final(otps)@ == after_verify(old(otps)@, user_id, otp@, at),
{
    match otps.verify_at(user_id, otp, at) {
        Ok(OtpOutcome::Verified) => Ok(()),
        Ok(_) => Err(ApiError::Unauthorized),
        Err(e) => Err(e),
    }
}

/// Verifies `otp` for `user_id` at the current time.
pub fn verify_2fa_internal(otps: &mut OtpChallengeStore, user_id: u128, otp: &str) -> (r: Result<
    (),
    ApiError,
>)
    requires
        old(otps).wf(),
    ensures
        final(otps).wf(),
        exists|at: u64|
            at <= i64::MAX && final(otps)@ == #[trigger] after_verify(old(otps)@, user_id, otp@, at) && (match r {
                Ok(()) => verify_2fa_result(
                    otp_verdict(otp_challenge_for(old(otps)@, user_id), otp@, at),
                ) is Ok,
                Err(e) => verify_2fa_result(
                    otp_verdict(otp_challenge_for(old(otps)@, user_id), otp@, at),
                ) == Err::<(), ApiErrorView>(e@),
            }),
{
    let at = now();
    verify_2fa_internal_at(otps, user_id, otp, at)
}

/// Verifies the passcode in `payload` at the current time and confirms it.
pub fn verify_2fa(state: &mut AppState, payload: &Verify2faRequest) -> (r: Result<
    TwoFaResponse,
    ApiError,
>)
    requires
        old(state).wf(),
    ensures
        final(state).wf(),
        exists|at: u64|
            at <= i64::MAX && final(state).otps@ == #[trigger] after_verify(
                old(state).otps@,
                payload.user_id,
                payload.otp@,
                at,
            ) && (match r {
                Ok(response) => response.message@ == "OTP verified successfully"@
                    && verify_2fa_result(
                    otp_verdict(
                        otp_challenge_for(old(state).otps@, payload.user_id),
                        payload.otp@,
                        at,
                    ),
                ) is Ok,
                Err(e) => verify_2fa_result(
                    otp_verdict(
                        otp_challenge_for(old(state).otps@, payload.user_id),
                        payload.otp@,
                        at,
                    ),
                ) == Err::<(), ApiErrorView>(e@),
            }),
        final(state).nonces@ == old(state).nonces@,
        final(state).users@ == old(state).users@,
        final(state).admins@ == old(state).admins@,
        final(state).issuer == old(state).issuer,
{
    match verify_2fa_internal(&mut state.otps, payload.user_id, payload.otp.as_str()) {
        Ok(()) => Ok(TwoFaResponse { message: "OTP verified successfully".to_owned() }),
        Err(e) => Err(e),
    }
}

/// A wallet login cannot be replayed: once a login has succeeded its nonce
/// is spent, and every later attempt for the address is `Unauthorized`,
/// whatever its signature, until a new nonce is issued.
pub proof fn law_login_replay_rejected(
    nonces: Challenges,
    address: Seq<char>,
    verdict: Result<bool, ApiErrorView>,
    first_at: u64,
    again: Result<bool, ApiErrorView>,
    second_at: u64,
)
    requires
        login_step(challenge_for(nonces, address), verdict, first_at) is Ok,
    ensures
        login_step(
            challenge_for(nonces_after_login(nonces, address, first_at, true), address),
            again,
            second_at,
        ) == Err::<Seq<char>, ApiErrorView>(ApiErrorView::Unauthorized),
{
}

/// A signature that does not verify over the live nonce logs nobody in.
/// So once a second nonce has been issued, a signature of the first is
/// `Unauthorized` wherever it does not also sign the second; the nonce
/// stays as it was and no identity is made.
pub proof fn law_login_needs_the_live_nonce(
    nonces: Challenges,
    identities: Seq<IdentityView>,
    address: Seq<char>,
    signature: Seq<char>,
    at: u64,
    fresh: u128,
    secret: Seq<u8>,
)
    ensures
        ({
            let key = public_key_of(address);
            let found = challenge_for(nonces, address);
            key is Ok && found is Some && at <= found->0.expires_at && verdict_under_key(
                key->Ok_0,
                encode_utf8(found->0.nonce),
                signature,
            ) == Ok::<bool, ApiErrorView>(false) ==> {
                &&& wallet_login_result(nonces, identities, address, signature, at, fresh, secret)
                    == Err::<Seq<char>, ApiErrorView>(ApiErrorView::Unauthorized)
                &&& nonces_after_login(nonces, address, at, false) == nonces
                &&& identities_after_login(nonces, identities, address, signature, at, fresh)
                    == identities
            }
        }),
{
}

/// A valid proof logs in exactly once. Where the proof is accepted at an
/// instant that leaves room for the token's lifetime, the login returns the
/// token of the identity that the address resolves to; the nonce is then
/// spent, and the same address and signature are `Unauthorized` at every
/// later attempt, whatever the directory holds by then.
pub proof fn law_login_succeeds_once(
    nonces: Challenges,
    identities: Seq<IdentityView>,
    address: Seq<char>,
    signature: Seq<char>,
    at: u64,
    fresh: u128,
    secret: Seq<u8>,
    later_identities: Seq<IdentityView>,
    later_at: u64,
    later_fresh: u128,
)
    ensures
        ({
            let first = wallet_login_result(
                nonces,
                identities,
                address,
                signature,
                at,
                fresh,
                secret,
            );
            let spent = nonces_after_login(nonces, address, at, true);
            wallet_login_verdict(nonces, address, signature, at) is Ok && at
                + DEFAULT_TOKEN_TTL_SECONDS <= u64::MAX ==> {
                &&& first is Ok
                &&& login_claims(resolved_identity(identities, address, fresh, at), at) is Some
                &&& !spent.dom().contains(address)
                &&& wallet_login_result(
                    spent,
                    later_identities,
                    address,
                    signature,
                    later_at,
                    later_fresh,
                    secret,
                ) == Err::<Seq<char>, ApiErrorView>(ApiErrorView::Unauthorized)
            }
        }),
{
}

} // verus!
