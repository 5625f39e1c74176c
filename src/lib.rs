//! A small HTTP client library: URL validation, form-pair parsing, JSON key
//! ordering, and the decisions that turn command-line options and server
//! replies into requests and reports.

pub mod url_check;
pub mod form;
pub mod json;
pub mod dispatch;
