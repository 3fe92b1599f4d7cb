//! MicroVM management: the machine spec, its validation, the ordered boot
//! plan, and the lifecycle of a VM handle.

pub mod builder;
pub mod config;
pub mod control;
pub mod error;
pub mod machine;
