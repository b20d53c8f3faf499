//! Authentication and authorization core: credentials, session tokens,
//! verification tokens, delegated login and access control by role.

pub mod auth;
pub mod clock;
pub mod config;
pub mod errors;
pub mod jobs;
pub mod mail;
pub mod middleware;
pub mod skills;
pub mod text;
pub mod users;
pub mod utils;
