//! Requests for outgoing mail. The core names the template and the values to
//! put into it; rendering and transport are not its business.

pub mod mails;
