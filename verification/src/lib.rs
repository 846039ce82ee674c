//! Session orchestration core for an adapter that drives a CLI coding agent
//! as a child process and streams its output as structured events.
//!
//! The crate holds the decision logic of the adapter: validating context-file
//! paths, resolving provider credentials, serializing the session
//! configuration, assembling the child invocation and its input, selecting
//! the durable session artifact to return, and the streaming state machine.
//! The binary around it performs the filesystem, process and channel I/O and
//! consults these functions for every decision.

mod clock;
pub mod command;
pub mod config;
pub mod data;
pub mod prompt;
pub mod rollout;
pub mod service;
pub mod stream;
pub mod text;
pub mod workspace;
