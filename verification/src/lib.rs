//! Persistence core of a local process supervisor.
//!
//! The registry of managed processes lives in three tiers: a cache in the daemon's
//! memory, a transient file that short-lived commands hand to each other, and a
//! durable file. This crate holds the registry itself, the rules that reconcile the
//! tiers, and the decisions taken around each file. It touches no file: every
//! operation takes what was found on disk as a value and answers with the registry
//! and the list of effects that the caller has to carry out.
//!
//! Beside the core stand two small collaborators, specified only where they meet
//! it: the text of a log entry, and the notification that tells a running daemon
//! what a command did.

pub mod cli;
pub mod daemon;
pub mod process;
