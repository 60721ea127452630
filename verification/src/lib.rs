//! Control-client core for a mobile robot speaking a length-prefixed
//! binary protocol over a stream socket.
//!
//! The crate covers the wire-protocol engine: outbound command framing,
//! inbound telemetry decoding, the connection state machine, and the
//! cancellable listen loop that streams decoded telemetry in arrival
//! order. Socket and file handling live with the caller; everything
//! here is pure logic with verified contracts.

pub mod codec;
pub mod commands;
pub mod config;
pub mod error;
pub mod listener;
pub mod session;
pub mod wire;
