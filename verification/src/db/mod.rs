//! What is read from and written to the databases.

pub mod mongo;
pub mod mysql;
