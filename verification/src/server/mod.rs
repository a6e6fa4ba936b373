//! The HTTP server: health, metrics, and the built-in stand-in for a language model.

pub mod body;
pub mod handler;
pub mod rate_limit;
pub mod response;
pub mod state;
