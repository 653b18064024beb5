//! What is offered to callers over HTTP.

pub mod get;
