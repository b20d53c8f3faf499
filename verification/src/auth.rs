//! Credentials, session tokens and delegated login.

pub mod dto;
pub mod flow;
pub mod handlers;
pub mod model;
pub mod oauth;
pub mod service;
pub mod verification;
