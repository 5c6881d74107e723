//! A point-to-point UDP throughput probe: the wire format, the payload
//! generator, and the server and client state machines, with their contracts.
//! Sockets, clocks and the entropy source are driven from outside the library.

pub mod payload;
pub mod throughput;
pub mod wire;
pub mod server;
pub mod client;
pub mod config;
