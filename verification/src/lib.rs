//! Core of a minimal "hello" network service with cooperative graceful
//! shutdown.
//!
//! The service accepts inbound connections, answers every request on them
//! with one fixed reply, and stops accepting new connections the moment a
//! termination request is observed. The decision logic lives here, stated
//! over plain values and verified:
//!
//! - [`handler`]: the total, stateless request handler and its fixed reply;
//! - [`conn`]: the per-connection exchange machine (read a request, reply,
//!   until the peer closes or the exchange fails);
//! - [`accept`]: the accept-loop machine that races new connections against
//!   the shutdown signal;
//! - [`shutdown`]: the one-shot, write-once shutdown signal.
//!
//! The surrounding I/O (the listening socket, the byte-level protocol codec,
//! process signals) is driven by an ordinary binary that feeds events to
//! these machines and performs the actions they decide on.

pub mod accept;
pub mod conn;
pub mod handler;
pub mod shutdown;
