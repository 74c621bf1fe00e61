//! The request-time consumer of tokens: it takes the bearer token out of an
//! `Authorization` header and has the issuer validate it. An absent header,
//! a header of another scheme, a malformed token and a failed validation all
//! give the same `Unauthorized`.

use vstd::prelude::*;
use vstd::string::StrSliceExecFns;
use crate::api_error::{ApiError, ApiErrorView};
use crate::clock::now;
use crate::token::{
    admin_claims_in, admin_claims_judged, user_claims_in, user_claims_judged, AdminClaims,
    AdminClaimsView, TokenIssuer, UserClaims, UserClaimsView,
};

verus! {

/// The length of the scheme prefix `Bearer `.
pub const BEARER_PREFIX_LEN: usize = 7;

/// The token in a header value: what follows the prefix `Bearer `.
pub open spec fn bearer_token_of(header: Seq<char>) -> Option<Seq<char>> {
    if header.len() >= BEARER_PREFIX_LEN && header.subrange(0, BEARER_PREFIX_LEN as int)
        == "Bearer "@ {
        Some(header.subrange(BEARER_PREFIX_LEN as int, header.len() as int))
    } else {
        None
    }
}

/// Takes the bearer token out of a header value.
pub fn bearer_token(header: &str) -> (token: Option<&str>)
    ensures
        match token {
            Some(t) => bearer_token_of(header@) == Some(t@),
            None => bearer_token_of(header@) is None,
        },
{
    let n = header.unicode_len();
    if n < BEARER_PREFIX_LEN {
        return None;
    }
    let prefix = header.substring_char(0, BEARER_PREFIX_LEN).to_owned();
    let expected = "Bearer ".to_owned();
    if prefix == expected {
        Some(header.substring_char(BEARER_PREFIX_LEN, n))
    } else {
        None
    }
}

/// What the gateway makes of a request for a user: the claims of a valid
/// bearer token, or `Unauthorized`.
pub open spec fn user_gate(header: Option<Seq<char>>, secret: Seq<u8>, at: u64) -> Result<
    UserClaimsView,
    ApiErrorView,
> {
    match header {
        None => Err(ApiErrorView::Unauthorized),
        Some(h) => match bearer_token_of(h) {
            None => Err(ApiErrorView::Unauthorized),
            Some(token) => user_claims_judged(user_claims_in(token, secret), at),
        },
    }
}

/// As [`user_gate`], for an administrator.
pub open spec fn admin_gate(header: Option<Seq<char>>, secret: Seq<u8>, at: u64) -> Result<
    AdminClaimsView,
    ApiErrorView,
> {
    match header {
        None => Err(ApiErrorView::Unauthorized),
        Some(h) => match bearer_token_of(h) {
            None => Err(ApiErrorView::Unauthorized),
            Some(token) => admin_claims_judged(admin_claims_in(token, secret), at),
        },
    }
}

/// The view of a header that may be absent.
pub open spec fn header_view(header: Option<&str>) -> Option<Seq<char>> {
    match header {
        Some(h) => Some(h@),
        None => None,
    }
}

/// A user whose bearer token was validated.
#[derive(Debug, Clone, PartialEq, Eq)]
pub struct AuthenticatedUser(pub UserClaims);

/// An administrator whose bearer token was validated.
#[derive(Debug, Clone, PartialEq, Eq)]
pub struct AuthenticatedAdmin(pub AdminClaims);

impl AuthenticatedUser {
    /// Authenticates a request by its `Authorization` header at the instant
    /// `at`. Every failure is `Unauthorized`, whatever its cause.
    pub fn from_authorization_at(issuer: &TokenIssuer, header: Option<&str>, at: u64) -> (r: Result<
        AuthenticatedUser,
        ApiError,
    >)
        ensures
            match r {
                Ok(user) => user_gate(header_view(header), issuer.secret(), at) == Ok::<
                    UserClaimsView,
                    ApiErrorView,
                >(user.0@),
                Err(e) => e@ == ApiErrorView::Unauthorized && user_gate(
                    header_view(header),
                    issuer.secret(),
                    at,
                ) is Err,
            },
    {
        let token = match header {
            None => {
                return Err(ApiError::Unauthorized);
            },
            Some(h) => match bearer_token(h) {
                None => {
                    return Err(ApiError::Unauthorized);
                },
                Some(token) => token,
            },
        };
        match issuer.decode_and_validate_at(token, at) {
            Ok(claims) => Ok(AuthenticatedUser(claims)),
            Err(e) => Err(e),
        }
    }

    /// Authenticates a request by its `Authorization` header at the current
    /// time.
    pub fn from_authorization(issuer: &TokenIssuer, header: Option<&str>) -> (r: Result<
        AuthenticatedUser,
        ApiError,
    >)
        ensures
            exists|at: u64|
                at <= i64::MAX && match r {
                    Ok(user) => #[trigger] user_gate(header_view(header), issuer.secret(), at)
                        == Ok::<UserClaimsView, ApiErrorView>(user.0@),
                    Err(e) => user_gate(header_view(header), issuer.secret(), at) == Err::<
                        UserClaimsView,
                        ApiErrorView,
                    >(e@),
                },
            r matches Err(e) ==> e@ == ApiErrorView::Unauthorized,
    {
        let at = now();
        let r = Self::from_authorization_at(issuer, header, at);
        proof {
            law_gate_is_uninformative(header_view(header), issuer.secret(), at);
        }
        r
    }
}

impl AuthenticatedAdmin {
    /// Authenticates an administrator's request by its `Authorization`
    /// header at the instant `at`. Every failure is `Unauthorized`.
    pub fn from_authorization_at(issuer: &TokenIssuer, header: Option<&str>, at: u64) -> (r: Result<
        AuthenticatedAdmin,
        ApiError,
    >)
        ensures
            match r {
                Ok(admin) => admin_gate(header_view(header), issuer.secret(), at) == Ok::<
                    AdminClaimsView,
                    ApiErrorView,
                >(admin.0@),
                Err(e) => e@ == ApiErrorView::Unauthorized && admin_gate(
                    header_view(header),
                    issuer.secret(),
                    at,
                ) is Err,
            },
    {
        let token = match header {
            None => {
                return Err(ApiError::Unauthorized);
            },
            Some(h) => match bearer_token(h) {
                None => {
                    return Err(ApiError::Unauthorized);
                },
                Some(token) => token,
            },
        };
        match issuer.decode_and_validate_admin_at(token, at) {
            Ok(claims) => Ok(AuthenticatedAdmin(claims)),
            Err(e) => Err(e),
        }
    }

    /// Authenticates an administrator's request at the current time.
    pub fn from_authorization(issuer: &TokenIssuer, header: Option<&str>) -> (r: Result<
        AuthenticatedAdmin,
        ApiError,
    >)
        ensures
            exists|at: u64|
                at <= i64::MAX && match r {
                    Ok(admin) => #[trigger] admin_gate(header_view(header), issuer.secret(), at)
                        == Ok::<AdminClaimsView, ApiErrorView>(admin.0@),
                    Err(e) => admin_gate(header_view(header), issuer.secret(), at) == Err::<
                        AdminClaimsView,
                        ApiErrorView,
                    >(e@),
                },
            r matches Err(e) ==> e@ == ApiErrorView::Unauthorized,
    {
        let at = now();
        let r = Self::from_authorization_at(issuer, header, at);
        proof {
            law_gate_is_uninformative(header_view(header), issuer.secret(), at);
        }
        r
    }
}

/// The gateway never says why: whatever the header, the secret and the
/// instant, a request is either let in with its claims or turned away as
/// `Unauthorized`.
pub proof fn law_gate_is_uninformative(header: Option<Seq<char>>, secret: Seq<u8>, at: u64)
    ensures
        user_gate(header, secret, at) matches Err(e) ==> e == ApiErrorView::Unauthorized,
        admin_gate(header, secret, at) matches Err(e) ==> e == ApiErrorView::Unauthorized,
        user_gate(header, secret, at) matches Ok(claims) ==> at < claims.exp,
        admin_gate(header, secret, at) matches Ok(claims) ==> at < claims.exp,
{
}

} // verus!
