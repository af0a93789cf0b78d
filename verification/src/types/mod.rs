//! The row and request/response types of the store, together with their
//! mathematical views and the spec-level vocabulary used by the contracts.

pub mod link;
pub mod task;
pub mod todo;
pub mod user;
