//! Decision logic of a desktop companion shell: a global hotkey hook, the
//! native message pump that owns it, the session identity, the relay of live
//! game telemetry to a backend, and the polling controller that drives the
//! relay.
//!
//! Every operating-system call, HTTP request and timer stays with the caller.
//! The functions here take what those calls returned as plain values and say
//! what has to happen next.

pub mod code;
pub mod hotkey;
pub mod message_loop;
pub mod model;
pub mod polling;
pub mod relay;
pub mod search;
pub mod session;
pub mod text;
