//! Composition core of a peer-to-peer networking stack: poll-driven
//! transports, stream multiplexers, upgrade pipelines and the two-case
//! `Either` combinators that let two concrete implementations share one
//! static type.

pub mod poll;
pub mod io;
pub mod muxing;
pub mod either;
pub mod upgrade;
pub mod transport;
pub mod and_then;
pub mod laws;
