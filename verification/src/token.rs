//! Signed, stateless bearer tokens that carry identity claims and an expiry.
//!
//! A token is valid where its signature verifies under the issuer's secret
//! and the current time is before its expiry. Nothing else is consulted.

use vstd::prelude::*;
use vstd::utf8::encode_utf8;
use crate::api_error::{ApiError, ApiErrorView};
use crate::clock::{deadline, deadline_of, now};

verus! {

/// What a user's token says: who, and until when.
#[derive(Debug, Clone, PartialEq, Eq)]
pub struct UserClaims {
    pub user_id: u128,
    pub email: String,
    pub exp: u64,
}

/// [`UserClaims`] as plain values.
pub struct UserClaimsView {
    pub user_id: u128,
    pub email: Seq<char>,
    pub exp: u64,
}

impl View for UserClaims {
    type V = UserClaimsView;

    open spec fn view(&self) -> UserClaimsView {
        UserClaimsView { user_id: self.user_id, email: self.email@, exp: self.exp }
    }
}

/// What an administrator's token says: who, in which role, and until when.
#[derive(Debug, Clone, PartialEq, Eq)]
pub struct AdminClaims {
    pub admin_id: u128,
    pub email: String,
    pub role: String,
    pub exp: u64,
}

/// [`AdminClaims`] as plain values.
pub struct AdminClaimsView {
    pub admin_id: u128,
    pub email: Seq<char>,
    pub role: Seq<char>,
    pub exp: u64,
}

impl View for AdminClaims {
    type V = AdminClaimsView;

    open spec fn view(&self) -> AdminClaimsView {
        AdminClaimsView {
            admin_id: self.admin_id,
            email: self.email@,
            role: self.role@,
            exp: self.exp,
        }
    }
}

/// The token that `jsonwebtoken::encode` makes of a user's claims under a
/// secret, with the default header.
pub uninterp spec fn user_token_of(claims: UserClaimsView, secret: Seq<u8>) -> Seq<char>;

/// The user's claims that `jsonwebtoken::decode` reads out of a token whose
/// signature verifies under the secret, the expiry left unjudged; `None`
/// where the token is malformed, signed otherwise, or lacks a claim.
pub uninterp spec fn user_claims_in(token: Seq<char>, secret: Seq<u8>) -> Option<UserClaimsView>;

/// As [`user_token_of`], for an administrator's claims.
pub uninterp spec fn admin_token_of(claims: AdminClaimsView, secret: Seq<u8>) -> Seq<char>;

/// As [`user_claims_in`], for an administrator's claims.
pub uninterp spec fn admin_claims_in(token: Seq<char>, secret: Seq<u8>) -> Option<AdminClaimsView>;

/// Calls `jsonwebtoken::encode` with the default header (HS256) on the JSON
/// object `{user_id, email, exp}`, the identifier written as a hyphenated
/// UUID. The call depends on its arguments alone, and it returns a token:
/// a map with text keys always serialises, and signing with HMAC has no
/// failure. The token carries an HMAC of its own payload under `secret`,
/// so `jsonwebtoken::decode` under the same secret accepts it and reads the
/// same three values.
#[verifier::external_body]
fn jwt_encode_user(claims: &UserClaims, secret: &[u8]) -> (token: Option<String>)
    ensures
        token is Some,
        token->0@ == user_token_of(claims@, secret@),
        user_claims_in(token->0@, secret@) == Some(claims@),
{
    let id = uuid::Uuid::from_u128(claims.user_id).to_string();
    let mut object = serde_json::Map::new();
    object.insert("user_id".to_string(), serde_json::Value::from(id));
    object.insert("email".to_string(), serde_json::Value::from(claims.email.clone()));
    object.insert("exp".to_string(), serde_json::Value::from(claims.exp));
    let key = jsonwebtoken::EncodingKey::from_secret(secret);
    jsonwebtoken::encode(&jsonwebtoken::Header::default(), &object, &key).ok()
}

/// Calls `jsonwebtoken::decode` with the default validation (HS256) but for
/// the expiry, which is left to the caller, and moves `user_id`, `email` and
/// `exp` out of the JSON object. The outcome depends on the token and the
/// secret alone.
#[verifier::external_body]
fn jwt_decode_user(token: &str, secret: &[u8]) -> (claims: Option<UserClaims>)
    ensures
        match claims {
            Some(c) => user_claims_in(token@, secret@) == Some(c@),
            None => user_claims_in(token@, secret@) is None,
        },
{
    let mut validation = jsonwebtoken::Validation::default();
    validation.validate_exp = false;
    let key = jsonwebtoken::DecodingKey::from_secret(secret);
    let data = jsonwebtoken::decode::<serde_json::Value>(token, &key, &validation).ok()?;
    let id = uuid::Uuid::parse_str(data.claims.get("user_id")?.as_str()?).ok()?;
    let email = data.claims.get("email")?.as_str()?.to_string();
    let exp = data.claims.get("exp")?.as_u64()?;
    Some(UserClaims { user_id: id.as_u128(), email, exp })
}

/// As [`jwt_encode_user`], on the JSON object `{admin_id, email, role, exp}`.
#[verifier::external_body]
fn jwt_encode_admin(claims: &AdminClaims, secret: &[u8]) -> (token: Option<String>)
    ensures
        token is Some,
        token->0@ == admin_token_of(claims@, secret@),
        admin_claims_in(token->0@, secret@) == Some(claims@),
{
    let id = uuid::Uuid::from_u128(claims.admin_id).to_string();
    let mut object = serde_json::Map::new();
    object.insert("admin_id".to_string(), serde_json::Value::from(id));
    object.insert("email".to_string(), serde_json::Value::from(claims.email.clone()));
    object.insert("role".to_string(), serde_json::Value::from(claims.role.clone()));
    object.insert("exp".to_string(), serde_json::Value::from(claims.exp));
    let key = jsonwebtoken::EncodingKey::from_secret(secret);
    jsonwebtoken::encode(&jsonwebtoken::Header::default(), &object, &key).ok()
}

/// As [`jwt_decode_user`], moving `admin_id`, `email`, `role` and `exp` out.
#[verifier::external_body]
fn jwt_decode_admin(token: &str, secret: &[u8]) -> (claims: Option<AdminClaims>)
    ensures
        match claims {
            Some(c) => admin_claims_in(token@, secret@) == Some(c@),
            None => admin_claims_in(token@, secret@) is None,
        },
{
    let mut validation = jsonwebtoken::Validation::default();
    validation.validate_exp = false;
    let key = jsonwebtoken::DecodingKey::from_secret(secret);
    let data = jsonwebtoken::decode::<serde_json::Value>(token, &key, &validation).ok()?;
    let id = uuid::Uuid::parse_str(data.claims.get("admin_id")?.as_str()?).ok()?;
    let email = data.claims.get("email")?.as_str()?.to_string();
    let role = data.claims.get("role")?.as_str()?.to_string();
    let exp = data.claims.get("exp")?.as_u64()?;
    Some(AdminClaims { admin_id: id.as_u128(), email, role, exp })
}

/// The claims a user's token will carry when issued at `at` for `ttl`
/// seconds: the input with the computed expiry; `None` where the expiry
/// cannot be represented.
pub open spec fn user_claims_issued(claims: UserClaimsView, ttl: u64, at: u64) -> Option<
    UserClaimsView,
> {
    match deadline_of(at, ttl) {
        Some(exp) => Some(UserClaimsView { exp, ..claims }),
        None => None,
    }
}

/// As [`user_claims_issued`], for an administrator.
pub open spec fn admin_claims_issued(claims: AdminClaimsView, ttl: u64, at: u64) -> Option<
    AdminClaimsView,
> {
    match deadline_of(at, ttl) {
        Some(exp) => Some(AdminClaimsView { exp, ..claims }),
        None => None,
    }
}

/// What issuing a user's token at `at` returns: the token that the signing
/// primitive makes of the claims with their computed expiry. An expiry
/// that cannot be represented is `Internal`; nothing else fails.
pub open spec fn user_issue_result(claims: UserClaimsView, ttl: u64, at: u64, secret: Seq<u8>) -> Result<
    Seq<char>,
    ApiErrorView,
> {
    match user_claims_issued(claims, ttl, at) {
        None => Err(ApiErrorView::Internal("Token expiry out of range"@)),
        Some(issued) => Ok(user_token_of(issued, secret)),
    }
}

/// As [`user_issue_result`], for an administrator.
pub open spec fn admin_issue_result(claims: AdminClaimsView, ttl: u64, at: u64, secret: Seq<u8>) -> Result<
    Seq<char>,
    ApiErrorView,
> {
    match admin_claims_issued(claims, ttl, at) {
        None => Err(ApiErrorView::Internal("Token expiry out of range"@)),
        Some(issued) => Ok(admin_token_of(issued, secret)),
    }
}

/// A token or an error, as plain values.
pub open spec fn token_view(r: Result<String, ApiError>) -> Result<Seq<char>, ApiErrorView> {
    match r {
        Ok(token) => Ok(token@),
        Err(e) => Err(e@),
    }
}

/// The judgement on what a token decoded to, at the instant `at`: claims
/// that were read and have not expired are accepted; everything else is
/// `Unauthorized`, with no reason given.
pub open spec fn user_claims_judged(decoded: Option<UserClaimsView>, at: u64) -> Result<
    UserClaimsView,
    ApiErrorView,
> {
    match decoded {
        Some(claims) => if claims.exp <= at {
            Err(ApiErrorView::Unauthorized)
        } else {
            Ok(claims)
        },
        None => Err(ApiErrorView::Unauthorized),
    }
}

/// As [`user_claims_judged`], for an administrator.
pub open spec fn admin_claims_judged(decoded: Option<AdminClaimsView>, at: u64) -> Result<
    AdminClaimsView,
    ApiErrorView,
> {
    match decoded {
        Some(claims) => if claims.exp <= at {
            Err(ApiErrorView::Unauthorized)
        } else {
            Ok(claims)
        },
        None => Err(ApiErrorView::Unauthorized),
    }
}

/// Judges decoded user claims against the clock.
pub fn judge_user_claims(decoded: Option<UserClaims>, at: u64) -> (r: Result<UserClaims, ApiError>)
    ensures
        match r {
            Ok(c) => decoded is Some && user_claims_judged(Some(decoded->0@), at) == Ok::<
                UserClaimsView,
                ApiErrorView,
            >(c@),
            Err(e) => e@ == ApiErrorView::Unauthorized && (decoded matches Some(d)
                ==> d.exp <= at),
        },
{
    match decoded {
        Some(claims) => if claims.exp <= at {
            Err(ApiError::Unauthorized)
        } else {
            Ok(claims)
        },
        None => Err(ApiError::Unauthorized),
    }
}

/// Judges decoded administrator claims against the clock.
pub fn judge_admin_claims(decoded: Option<AdminClaims>, at: u64) -> (r: Result<
    AdminClaims,
    ApiError,
>)
    ensures
        match r {
            Ok(c) => decoded is Some && admin_claims_judged(Some(decoded->0@), at) == Ok::<
                AdminClaimsView,
                ApiErrorView,
            >(c@),
            Err(e) => e@ == ApiErrorView::Unauthorized && (decoded matches Some(d)
                ==> d.exp <= at),
        },
{
    match decoded {
        Some(claims) => if claims.exp <= at {
            Err(ApiError::Unauthorized)
        } else {
            Ok(claims)
        },
        None => Err(ApiError::Unauthorized),
    }
}

/// Issues tokens under a secret and validates them under the same secret.
/// The secret is injected once and read only here.
pub struct TokenIssuer {
    secret: String,
}

impl TokenIssuer {
    /// The bytes of the signing secret.
    pub closed spec fn secret(&self) -> Seq<u8> {
        encode_utf8(self.secret@)
    }

    /// An issuer that signs with `secret`.
    pub fn new(secret: &str) -> (issuer: Self)
        ensures
            issuer.secret() == encode_utf8(secret@),
    {
        TokenIssuer { secret: secret.to_owned() }
    }

    /// Issues a token that carries `claims` with the expiry `at + ttl`.
    ///
    /// Succeeds exactly where the expiry can be represented; the token then
    /// decodes, under this issuer's secret, to the claims with the computed
    /// expiry.
    pub fn issue_at(&self, claims: &UserClaims, ttl: u64, at: u64) -> (r: Result<String, ApiError>)
        ensures
            token_view(r) == user_issue_result(claims@, ttl, at, self.secret()),
            r is Ok <==> at + ttl <= u64::MAX,
            r matches Ok(t) ==> user_claims_in(t@, self.secret()) == user_claims_issued(
                claims@,
                ttl,
                at,
            ),
    {
        match deadline(at, ttl) {
            None => Err(ApiError::internal("Token expiry out of range")),
            Some(exp) => {
                let issued = UserClaims {
                    user_id: claims.user_id,
                    email: claims.email.clone(),
                    exp,
                };
                match jwt_encode_user(&issued, self.secret.as_str().as_bytes()) {
                    Some(token) => Ok(token),
                    None => Err(ApiError::internal("Failed to sign token")),
                }
            },
        }
    }

    /// Issues a user's token at the current time: what
    /// [`TokenIssuer::issue_at`] returns at an instant that the clock can
    /// read. So a lifetime that fits after every such instant always gets
    /// its token.
    pub fn issue(&self, claims: &UserClaims, ttl: u64) -> (r: Result<String, ApiError>)
        ensures
            exists|at: u64|
                at <= i64::MAX && token_view(r) == #[trigger] user_issue_result(
                    claims@,
                    ttl,
                    at,
                    self.secret(),
                ) && (r is Ok ==> user_claims_in(r->Ok_0@, self.secret()) == user_claims_issued(
                    claims@,
                    ttl,
                    at,
                )),
            r matches Ok(t) ==> user_claims_in(t@, self.secret()) is Some,
            r matches Err(e) ==> e@ is Internal,
            ttl <= u64::MAX - i64::MAX ==> r is Ok,
    {
        let at = now();
        let r = self.issue_at(claims, ttl, at);
        assert(token_view(r) == user_issue_result(claims@, ttl, at, self.secret()));
        r
    }

    /// Decodes a user's token and validates it at the instant `at`: the
    /// claims where the signature verifies and `at` is before the expiry,
    /// `Unauthorized` in every other case.
    pub fn decode_and_validate_at(&self, token: &str, at: u64) -> (r: Result<UserClaims, ApiError>)
        ensures
            match r {
                Ok(c) => user_claims_judged(user_claims_in(token@, self.secret()), at) == Ok::<
                    UserClaimsView,
                    ApiErrorView,
                >(c@),
                Err(e) => user_claims_judged(user_claims_in(token@, self.secret()), at) == Err::<
                    UserClaimsView,
                    ApiErrorView,
                >(e@),
            },
    {
        judge_user_claims(jwt_decode_user(token, self.secret.as_str().as_bytes()), at)
    }

    /// Decodes a user's token and validates it at the current time: what
    /// [`TokenIssuer::decode_and_validate_at`] returns at an instant that
    /// the clock can read.
    pub fn decode_and_validate(&self, token: &str) -> (r: Result<UserClaims, ApiError>)
        ensures
            match r {
                Ok(c) => user_claims_in(token@, self.secret()) == Some(c@),
                Err(e) => e@ == ApiErrorView::Unauthorized,
            },
            exists|at: u64|
                at <= i64::MAX && match r {
                    Ok(c) => #[trigger] user_claims_judged(
                        user_claims_in(token@, self.secret()),
                        at,
                    ) == Ok::<UserClaimsView, ApiErrorView>(c@),
                    Err(e) => user_claims_judged(user_claims_in(token@, self.secret()), at)
                        == Err::<UserClaimsView, ApiErrorView>(e@),
                },
    {
        let at = now();
        self.decode_and_validate_at(token, at)
    }

    /// Issues an administrator's token at the current time, as
    /// [`TokenIssuer::issue`] does for a user.
    pub fn issue_admin(&self, claims: &AdminClaims, ttl: u64) -> (r: Result<String, ApiError>)
        ensures
            exists|at: u64|
                at <= i64::MAX && token_view(r) == #[trigger] admin_issue_result(
                    claims@,
                    ttl,
                    at,
                    self.secret(),
                ) && (r is Ok ==> admin_claims_in(r->Ok_0@, self.secret()) == admin_claims_issued(
                    claims@,
                    ttl,
                    at,
                )),
            r matches Ok(t) ==> admin_claims_in(t@, self.secret()) is Some,
            r matches Err(e) ==> e@ is Internal,
            ttl <= u64::MAX - i64::MAX ==> r is Ok,
    {
        let at = now();
        let r = self.issue_admin_at(claims, ttl, at);
        assert(token_view(r) == admin_issue_result(claims@, ttl, at, self.secret()));
        r
    }

    /// Decodes an administrator's token and validates it at the current
    /// time.
    pub fn decode_and_validate_admin(&self, token: &str) -> (r: Result<AdminClaims, ApiError>)
        ensures
            match r {
                Ok(c) => admin_claims_in(token@, self.secret()) == Some(c@),
                Err(e) => e@ == ApiErrorView::Unauthorized,
            },
            exists|at: u64|
                at <= i64::MAX && match r {
                    Ok(c) => #[trigger] admin_claims_judged(
                        admin_claims_in(token@, self.secret()),
                        at,
                    ) == Ok::<AdminClaimsView, ApiErrorView>(c@),
                    Err(e) => admin_claims_judged(admin_claims_in(token@, self.secret()), at)
                        == Err::<AdminClaimsView, ApiErrorView>(e@),
                },
    {
        let at = now();
        self.decode_and_validate_admin_at(token, at)
    }

    /// Issues a token that carries an administrator's `claims` with the
    /// expiry `at + ttl`, as [`TokenIssuer::issue_at`] does for a user.
    pub fn issue_admin_at(&self, claims: &AdminClaims, ttl: u64, at: u64) -> (r: Result<
        String,
        ApiError,
    >)
        ensures
            token_view(r) == admin_issue_result(claims@, ttl, at, self.secret()),
            r is Ok <==> at + ttl <= u64::MAX,
            r matches Ok(t) ==> admin_claims_in(t@, self.secret()) == admin_claims_issued(
                claims@,
                ttl,
                at,
            ),
    {
        match deadline(at, ttl) {
            None => Err(ApiError::internal("Token expiry out of range")),
            Some(exp) => {
                let issued = AdminClaims {
                    admin_id: claims.admin_id,
                    email: claims.email.clone(),
                    role: claims.role.clone(),
                    exp,
                };
                match jwt_encode_admin(&issued, self.secret.as_str().as_bytes()) {
                    Some(token) => Ok(token),
                    None => Err(ApiError::internal("Failed to sign token")),
                }
            },
        }
    }

    /// Decodes an administrator's token and validates it at the instant `at`.
    pub fn decode_and_validate_admin_at(&self, token: &str, at: u64) -> (r: Result<
        AdminClaims,
        ApiError,
    >)
        ensures
            match r {
                Ok(c) => admin_claims_judged(admin_claims_in(token@, self.secret()), at) == Ok::<
                    AdminClaimsView,
                    ApiErrorView,
                >(c@),
                Err(e) => admin_claims_judged(admin_claims_in(token@, self.secret()), at) == Err::<
                    AdminClaimsView,
                    ApiErrorView,
                >(e@),
            },
    {
        judge_admin_claims(jwt_decode_admin(token, self.secret.as_str().as_bytes()), at)
    }
}

/// A token round-trips until it expires. Where decoding a token gives the
/// claims that an issuance at `issued_at` for `ttl` seconds wrote, which is
/// what [`TokenIssuer::issue_at`] ensures of every token it returns, validation
/// returns those claims at every instant before `issued_at + ttl`, and
/// `Unauthorized` from that instant on.
pub proof fn law_token_round_trip(
    claims: UserClaimsView,
    ttl: u64,
    issued_at: u64,
    checked_at: u64,
    decoded: Option<UserClaimsView>,
)
    requires
        user_claims_issued(claims, ttl, issued_at) is Some,
        decoded == user_claims_issued(claims, ttl, issued_at),
    ensures
        checked_at < issued_at + ttl ==> user_claims_judged(decoded, checked_at) == Ok::<
            UserClaimsView,
            ApiErrorView,
        >(UserClaimsView { exp: (issued_at + ttl) as u64, ..claims }),
        checked_at >= issued_at + ttl ==> user_claims_judged(decoded, checked_at) == Err::<
            UserClaimsView,
            ApiErrorView,
        >(ApiErrorView::Unauthorized),
{
}

} // verus!
