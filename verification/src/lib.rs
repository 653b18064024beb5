//! A store of short-lived records. A record is named by a slug and carries a
//! file, a redirect target or a text paste. A record may be self-consuming:
//! each access takes one unit from its counter, and the record is gone once
//! the counter is used up.

pub mod error;
pub mod types;
pub mod dispatch;
pub mod store;
pub mod api;
pub mod lookup;
pub mod laws;

pub use error::Error;
