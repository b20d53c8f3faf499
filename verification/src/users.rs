//! User records and the roles they may hold.

pub mod dto;
pub mod handlers;
pub mod model;
pub mod service;
