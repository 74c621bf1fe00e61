//! Request handlers, grouped by endpoint family.

pub mod two_fa;
