//! Skills as they appear in user profiles.

pub mod dto;
