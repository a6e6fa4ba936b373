//! The message queues.

pub mod consumer;
pub mod producer;
