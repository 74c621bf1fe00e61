//! Challenge/response and one-time-passcode authentication.
//!
//! Two credentials are proved here: possession of an Ed25519 key bound to a
//! wallet address, by signing a single-use nonce, and possession of an
//! out-of-band channel, by returning a short-lived numeric passcode. Both end
//! in a signed, self-expiring bearer token.
//!
//! Every store is an exclusive value: a method that takes `&mut self` is the
//! atomic unit in which a challenge is read, judged and consumed.

pub mod api_error;
mod assoc;
pub mod auth;
pub mod clock;
pub mod config;
pub mod email;
pub mod email_service;
pub mod event_handlers;
pub mod events;
pub mod gateway;
pub mod handlers;
pub mod hasher;
pub mod http;
pub mod identity;
pub mod nonce;
pub mod otp;
mod random;
pub mod safe_math;
pub mod signature;
pub mod state;
pub mod token;
pub mod two_fa;

pub use api_error::ApiError;
pub use config::Config;
pub use state::AppState;
