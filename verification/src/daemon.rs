//! What the daemon contributes beside the registry.

pub mod log;
