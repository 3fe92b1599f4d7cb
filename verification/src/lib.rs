//! The core of a sandbox orchestrator: isolated code-execution sandboxes,
//! each a MicroVM with a small agent inside, managed from the host.
//!
//! The library holds the rules of the orchestrator and proves them: the
//! machine spec and its boot plan ([`vm`]), the wire protocol between host
//! and agent ([`protocol`]), the agent's dispatch ([`agent`]) and the host's
//! client ([`client`]), the sandbox and its identity ([`sandbox`]), the
//! registry of live sandboxes ([`manager`]), the warm pool ([`pool`]), and
//! the checks of the tool front-end ([`mcp`]).
//!
//! Nothing here touches a socket, a process or the filesystem. Where an
//! operation alternates between deciding and acting, the library decides
//! and the caller acts: it is told what to do next and reports what came of
//! it.

pub mod agent;
pub mod client;
pub mod config;
pub mod error;
pub mod ids;
pub mod json;
pub mod manager;
pub mod mcp;
pub mod paths;
pub mod pool;
pub mod protocol;
pub mod sandbox;
pub mod text;
pub mod time;
pub mod vm;
