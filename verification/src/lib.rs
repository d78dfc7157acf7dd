//! A resilient observer for the layer-change notifications of a
//! keyboard-remapping daemon.
//!
//! The daemon speaks newline-delimited JSON over a local TCP socket. This
//! library holds the decisions of a client of that stream: what each frame
//! means, what a session does with it, and how a supervisor keeps the
//! connection alive. Sockets, processes and clocks stay with the caller, who
//! performs the commands that the state machines here hand out and reports
//! back what happened.

pub mod config;
pub mod message;
pub mod paths;
pub mod stream;
pub mod session;
pub mod settings;
pub mod supervisor;
