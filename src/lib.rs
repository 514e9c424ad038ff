//! Typed client core for a cloud platform's REST API: resource locators,
//! request assembly, a bounded retry state machine and response decoding.

pub mod client;
pub mod dataset;
pub mod error;
pub mod headers;
pub mod locator;
pub mod pagination;
pub mod query;
pub mod request;
pub mod retry;
pub mod run;
