//! Jobs as far as the core names them.

pub mod dto;
pub mod model;
