//! The course of a task, from its script to its prompts.

pub mod processor;
pub mod scene;
pub mod storyboard;
