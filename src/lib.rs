//! A single umbrella error type for HTTP protocol values, able to carry any
//! of the library's validation failures and to hand the exact one back.

pub mod cause;
pub mod downcast;
pub mod error;
pub mod header;
pub mod method;
pub mod status;
pub mod uri;
