//! The guest agent: what it makes of each line it reads, which operation a
//! request asks for, and how the outcome of the operation is answered.
//!
//! Running a command and touching the filesystem are left to the caller.

pub mod connection;
pub mod exec;
pub mod fs;
pub mod handler;
