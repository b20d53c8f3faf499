//! Access control for protected requests.

pub mod auth;
