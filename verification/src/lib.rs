//! A small HTTP control-plane service for a single shared on/off actuator.
//!
//! The crate provides the verified core of a minimal web service that
//! serves a handful of fixed static assets and exposes one stateful
//! endpoint, `/toggle_led/{id}`, which flips a shared on/off value and
//! reports the value that resulted from the flip.
//!
//! The pieces are:
//! - [`actuator`]: the single mutable on/off value and its toggle operation;
//! - [`routing`]: the immutable route table and the dispatch of one request;
//! - [`http`]: request-line parsing and response framing on raw bytes;
//! - [`handler`]: the per-connection lifecycle state machine and the
//!   bounded pool of handler slots;
//! - [`config`]: startup-time timeouts and service policy.
//!
//! Transport, task spawning and timers are collaborators supplied by the
//! embedding program: the library only computes, on plain values.

pub mod actuator;
pub mod config;
pub mod handler;
pub mod http;
pub mod routing;
