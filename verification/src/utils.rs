//! Rules that incoming requests must meet, and small helpers of the
//! listing and update endpoints.

pub mod merge;
pub mod paging;
pub mod validation;
