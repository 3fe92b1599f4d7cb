//! The tool front-end: its configuration, the parameters and results of its
//! tools, and the checks it makes before it calls on the registry.

pub mod config;
pub mod server;
pub mod types;
