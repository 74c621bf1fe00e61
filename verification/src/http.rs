//! The values of the administrative endpoints.

pub mod admin;
