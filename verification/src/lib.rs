//! Round-trip latency probing over UDP, written without any I/O of its own.
//!
//! A client exchange binds a socket, sends one datagram to an echo server and
//! waits for one reply, timing the send and the receive. The echo server
//! receives a datagram and sends the same bytes back to the peer it came from.
//! Both are state machines here: they hand out the next socket request and
//! take its completion as an event, so the caller decides how the request is
//! carried out (blocking calls, a multi-threaded scheduler, a single-threaded
//! one) while every decision is made, and verified, in this crate.

pub mod clock;
pub mod config;
pub mod decimal;
pub mod driver;
pub mod endpoint;
pub mod exchange;
pub mod failure;
pub mod harness;
pub mod laws;
pub mod link;
pub mod report;
pub mod server;
pub mod variant;
