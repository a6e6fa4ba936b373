//! Decisions of the media prompt service, verified.
//!
//! The service takes tasks from a queue, has a language model write the prompts for the scenes and
//! storyboards of each task's script, stores them, and tells the next queue. This library decides
//! what is done and with what; it does no input or output of its own. Where a decision waits for the
//! outside world, a state machine hands out an action and takes back the event that came of it.

pub mod text;
pub mod error;
pub mod model;
pub mod config;
pub mod db;
pub mod llm;
pub mod mq;
pub mod server;
pub mod task;
