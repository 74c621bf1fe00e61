//! Time, as whole seconds since the Unix epoch.

use vstd::prelude::*;

verus! {

/// How long a nonce or a passcode lives: five minutes.
pub const CHALLENGE_TTL_SECONDS: u64 = 300;

/// How long a token lives unless the caller says otherwise: a day.
pub const DEFAULT_TOKEN_TTL_SECONDS: u64 = 86400;

/// Reads the system clock with `std::time::SystemTime::now` and has
/// `chrono` turn the reading into a `DateTime<Utc>`, whose `timestamp` is
/// the seconds since the epoch, negative where the clock stands before it.
/// Nothing is claimed of the value: it differs from call to call.
#[verifier::external_body]
fn system_seconds() -> i64 {
    chrono::DateTime::<chrono::Utc>::from(std::time::SystemTime::now()).timestamp()
}

/// The instant that a reading of the clock stands for: the reading
/// itself, or 0 where the clock stands before the epoch.
pub open spec fn epoch_seconds_of(reading: i64) -> u64 {
    if reading < 0 {
        0
    } else {
        reading as u64
    }
}

/// Turns a reading of the clock into an instant.
pub fn epoch_seconds(reading: i64) -> (t: u64)
    ensures
        t == epoch_seconds_of(reading),
        t <= i64::MAX,
{
    if reading < 0 {
        0
    } else {
        reading as u64
    }
}

/// The current time: the instant that the system clock's reading stands
/// for. A clock that stands before the epoch reads as 0.
pub fn now() -> (t: u64)
    ensures
        t <= i64::MAX,
        exists|reading: i64| t == epoch_seconds_of(reading),
{
    epoch_seconds(system_seconds())
}

/// `at + ttl`, or `None` where that instant cannot be represented.
pub open spec fn deadline_of(at: u64, ttl: u64) -> Option<u64> {
    if at + ttl <= u64::MAX {
        Some((at + ttl) as u64)
    } else {
        None
    }
}

/// The instant `ttl` seconds after `at`.
pub fn deadline(at: u64, ttl: u64) -> (d: Option<u64>)
    ensures
        d == deadline_of(at, ttl),
{
    at.checked_add(ttl)
}

} // verus!
