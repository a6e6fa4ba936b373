//! Data that the service works on.

pub mod prompt;
pub mod script;
