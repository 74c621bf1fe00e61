//! The error classes that callers of this library see.

use vstd::prelude::*;

verus! {

/// A failure, by class. Authentication failures carry no reason on purpose.
#[derive(Debug, Clone, PartialEq, Eq)]
pub enum ApiError {
    /// The request was malformed: the caller's mistake, not a security failure.
    BadRequest(String),
    /// The credential was wrong, spent, expired or absent.
    Unauthorized,
    /// The account exists but may not sign in.
    Forbidden(String),
    /// An identity that had to exist does not.
    NotFound(String),
    /// A hashing or signing primitive failed. Never treated as success.
    Internal(String),
}

/// What an [`ApiError`] holds, as plain values.
pub enum ApiErrorView {
    BadRequest(Seq<char>),
    Unauthorized,
    Forbidden(Seq<char>),
    NotFound(Seq<char>),
    Internal(Seq<char>),
}

impl View for ApiError {
    type V = ApiErrorView;

    open spec fn view(&self) -> ApiErrorView {
        match self {
            ApiError::BadRequest(m) => ApiErrorView::BadRequest(m@),
            ApiError::Unauthorized => ApiErrorView::Unauthorized,
            ApiError::Forbidden(m) => ApiErrorView::Forbidden(m@),
            ApiError::NotFound(m) => ApiErrorView::NotFound(m@),
            ApiError::Internal(m) => ApiErrorView::Internal(m@),
        }
    }
}

/// The HTTP status that stands for each class.
pub open spec fn status_of(e: ApiErrorView) -> u16 {
    match e {
        ApiErrorView::BadRequest(_) => 400,
        ApiErrorView::Unauthorized => 401,
        ApiErrorView::Forbidden(_) => 403,
        ApiErrorView::NotFound(_) => 404,
        ApiErrorView::Internal(_) => 500,
    }
}

/// The text shown for each class: the message it carries, or the class name.
pub open spec fn message_of(e: ApiErrorView) -> Seq<char> {
    match e {
        ApiErrorView::BadRequest(m) => m,
        ApiErrorView::Unauthorized => "Unauthorized"@,
        ApiErrorView::Forbidden(m) => m,
        ApiErrorView::NotFound(m) => m,
        ApiErrorView::Internal(m) => m,
    }
}

/// A result with its error as plain values.
pub open spec fn result_view<T>(r: Result<T, ApiError>) -> Result<T, ApiErrorView> {
    match r {
        Ok(value) => Ok(value),
        Err(e) => Err(e@),
    }
}

impl ApiError {
    /// A `BadRequest` with the given message.
    pub fn bad_request(message: &str) -> (e: ApiError)
        ensures
            e@ == ApiErrorView::BadRequest(message@),
    {
        ApiError::BadRequest(message.to_owned())
    }

    /// A `NotFound` with the given message.
    pub fn not_found(message: &str) -> (e: ApiError)
        ensures
            e@ == ApiErrorView::NotFound(message@),
    {
        ApiError::NotFound(message.to_owned())
    }

    /// A `Forbidden` with the given message.
    pub fn forbidden(message: &str) -> (e: ApiError)
        ensures
            e@ == ApiErrorView::Forbidden(message@),
    {
        ApiError::Forbidden(message.to_owned())
    }

    /// An `Internal` with the given message.
    pub fn internal(message: &str) -> (e: ApiError)
        ensures
            e@ == ApiErrorView::Internal(message@),
    {
        ApiError::Internal(message.to_owned())
    }

    /// The HTTP status of this error.
    pub fn status_code(&self) -> (code: u16)
        ensures
            code == status_of(self@),
    {
        match self {
            ApiError::BadRequest(_) => 400,
            ApiError::Unauthorized => 401,
            ApiError::Forbidden(_) => 403,
            ApiError::NotFound(_) => 404,
            ApiError::Internal(_) => 500,
        }
    }

    /// The text of this error.
    pub fn to_string(&self) -> (text: String)
        ensures
            text@ == message_of(self@),
    {
        match self {
            ApiError::BadRequest(m) => m.clone(),
            ApiError::Unauthorized => "Unauthorized".to_owned(),
            ApiError::Forbidden(m) => m.clone(),
            ApiError::NotFound(m) => m.clone(),
            ApiError::Internal(m) => m.clone(),
        }
    }
}

} // verus!
