//! The decision core of `webtranscat`, a terminal bridge to one WebTransport
//! session.
//!
//! Nothing in this crate performs I/O. The binary reads datagrams, streams and
//! input lines, hands each result to the [`mux::Multiplexer`] as an event, and
//! carries out the step that comes back. Every rule of the bridge lives here,
//! with a contract that Verus proves.

pub mod buffer;
pub mod client;
pub mod config;
pub mod datagram;
pub mod input;
pub mod logging;
pub mod mux;
pub mod notice;
pub mod outcome;
pub mod step;
pub mod stream;
pub mod text;
pub mod trace;
