//! Supervision logic for a hot-reloading Flutter development session.
//!
//! The crate holds the decisions of the supervisor: what a line of tool
//! output means, which file changes count, which key asks for what, how the
//! event loop moves between its states and which resources a shutdown has to
//! release. Performing the effects (spawning, signalling, printing) is left
//! to the program that drives it.

pub mod cleanup;
pub mod clock;
pub mod debug_info;
pub mod error;
pub mod event_loop;
pub mod events;
pub mod keyboard;
pub mod launch;
pub mod lines;
pub mod notice;
pub mod pattern;
pub mod project;
pub mod scanner;
pub mod session;
pub mod signal;
pub mod startup;
pub mod termination;
pub mod text;
pub mod watcher;
