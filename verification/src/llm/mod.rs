//! Calls of the language model: requests, responses, retries.

pub mod client;
pub mod json;
pub mod types;
