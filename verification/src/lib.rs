//! Decision logic of a small command-line client for a music streaming
//! service: what to ask of the service, in which order, and what to print.
//!
//! Nothing in this crate performs I/O. Each command is a state machine that a
//! driver advances by handing it the outcome of the previous request.

pub mod command;
pub mod error;
pub mod infocmd;
pub mod model;
pub mod playbackcmd;
pub mod runs;
pub mod runtime;
pub mod scopes;
pub mod text;
