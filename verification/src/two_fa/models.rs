//! The values that the passcode handlers take and return.

use vstd::prelude::*;

pub use crate::otp::OtpChallenge as User2FA;

verus! {

/// A request to send a passcode to an identity.
#[derive(Debug, Clone, Copy, PartialEq, Eq)]
pub struct Send2FARequest {
    pub user_id: u128,
}

/// The confirmation that a passcode was sent, and for how long it lives.
#[derive(Debug, Clone, PartialEq, Eq)]
pub struct Send2FAResponse {
    pub message: String,
    pub expires_in_seconds: i64,
}

/// A passcode submitted for an identity.
#[derive(Debug, Clone, PartialEq, Eq)]
pub struct Verify2FARequest {
    pub user_id: u128,
    pub otp: String,
}

/// The confirmation that a passcode was verified.
#[derive(Debug, Clone, PartialEq, Eq)]
pub struct Verify2FAResponse {
    pub message: String,
    pub verified: bool,
}

/// A passcode on its way to an identity: the contact to send it to, and
/// the code. It goes to the out-of-band channel and to nobody else.
#[derive(Debug, Clone, PartialEq, Eq)]
pub struct OtpDelivery {
    pub to: String,
    pub code: String,
}

} // verus!
