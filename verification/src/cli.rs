//! What the command line contributes beside the registry.

pub mod events;
