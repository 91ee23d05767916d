//! A line-oriented relay library.
//!
//! Clients connect over a stream transport, send newline-terminated text,
//! and every other connected client receives the line uppercased and
//! prefixed with the sender's label, while the sender itself receives only
//! a fixed acknowledgment.
//!
//! This crate holds the verified core: the pure message transforms
//! ([`protocol`]), the per-connection state machine ([`client`]), the
//! fan-out bus semantics ([`bus`]), and the configuration and command-line
//! surface ([`config`], [`cli`]). The transport itself (sockets, the accept
//! loop, the async runtime) lives outside the library and drives the state
//! machine with events.

pub mod bus;
pub mod cli;
pub mod client;
pub mod config;
pub mod decimal;
pub mod protocol;
pub mod server;
