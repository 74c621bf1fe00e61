//! The query parameters of the event listings, and how they are read.

use vstd::prelude::*;
use vstd::string::StringExecFns;
use crate::api_error::{ApiError, ApiErrorView};
use crate::events::{event_type_named, EventType};

verus! {

/// The largest page that a listing returns.
pub const MAX_PAGE_SIZE: i64 = 100;

/// The query parameters of an event listing.
#[derive(Debug, Clone, PartialEq, Eq)]
pub struct EventQueryParams {
    pub limit: i64,
    pub offset: i64,
    pub event_type: Option<String>,
}

/// The page size of a listing that names none.
pub fn default_limit() -> (limit: i64)
    ensures
        limit == 50,
{
    50
}

/// The text that `str::to_lowercase` makes of a text: each character
/// replaced by its lower-case form as Unicode defines it.
pub uninterp spec fn lowercase_of(s: Seq<char>) -> Seq<char>;

/// Calls `str::to_lowercase`, which depends on the text alone.
#[verifier::external_body]
fn to_lowercase(s: &str) -> (lower: String)
    ensures
        lower@ == lowercase_of(s@),
{
    s.to_lowercase()
}

/// The message for a name that stands for no kind of event.
pub open spec fn invalid_event_type_message(given: Seq<char>) -> Seq<char> {
    "Invalid event type: "@ + given
        + ". Valid types: deposit, borrow, repay, liquidation, interest_accrual"@
}

/// Reads the kind of event out of a name, in whatever case it is written.
/// A name that stands for no kind is a `BadRequest` that repeats the name.
pub fn parse_event_type(s: &str) -> (r: Result<EventType, ApiError>)
    ensures
        match r {
            Ok(kind) => event_type_named(lowercase_of(s@)) == Some(kind),
            Err(e) => event_type_named(lowercase_of(s@)) is None && e@ == ApiErrorView::BadRequest(
                invalid_event_type_message(s@),
            ),
        },
{
    let lower = to_lowercase(s);
    match EventType::from_name(lower.as_str()) {
        Some(kind) => Ok(kind),
        None => {
            let message = "Invalid event type: ".to_owned().concat(s).concat(
                ". Valid types: deposit, borrow, repay, liquidation, interest_accrual",
            );
            Err(ApiError::BadRequest(message))
        },
    }
}

impl EventQueryParams {
    /// The parameters of a listing that names nothing.
    pub fn new() -> (params: Self)
        ensures
            params.limit == 50,
            params.offset == 0,
            params.event_type is None,
    {
        EventQueryParams { limit: default_limit(), offset: 0, event_type: None }
    }

    /// The page size that a listing is run with: the limit asked for, capped
    /// at `MAX_PAGE_SIZE`.
    pub fn effective_limit(&self) -> (limit: i64)
        ensures
            limit == if self.limit <= MAX_PAGE_SIZE {
                self.limit
            } else {
                MAX_PAGE_SIZE
            },
    {
        if self.limit <= MAX_PAGE_SIZE {
            self.limit
        } else {
            MAX_PAGE_SIZE
        }
    }

    /// The kind of event that the listing is filtered by, if it names one.
    pub fn parsed_event_type(&self) -> (r: Result<Option<EventType>, ApiError>)
        ensures
            match self.event_type {
                None => r matches Ok(None),
                Some(name) => match event_type_named(lowercase_of(name@)) {
                    Some(kind) => r matches Ok(Some(k)) && k == kind,
                    None => r matches Err(e) && e@ == ApiErrorView::BadRequest(
                        invalid_event_type_message(name@),
                    ),
                },
            },
    {
        match &self.event_type {
            None => Ok(None),
            Some(name) => match parse_event_type(name.as_str()) {
                Ok(kind) => Ok(Some(kind)),
                Err(e) => Err(e),
            },
        }
    }
}

} // verus!
