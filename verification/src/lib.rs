//! An operations agent for a line-oriented voice-server query protocol.
//!
//! The crate implements the protocol codec (escaping, key=value rows,
//! status decoding), the auto-channel engine that durably maps users to
//! channels created for them, the observer that classifies server
//! notifications, and the session supervisor's shutdown protocol.
//! All decision logic is verified; sockets, timers and the key/value
//! store are driven by an unverified shell that feeds plain values in
//! and carries the returned actions out.

pub mod auto_channel;
pub mod commands;
pub mod configure;
pub mod escape;
pub mod hypervisor;
pub mod observer;
pub mod response;
pub mod strutil;
pub mod tracker;
pub mod types;
pub mod wire;
