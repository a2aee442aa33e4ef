//! Client-side multiplexer for a message-oriented duplex link.
//!
//! Many independent callers issue correlated requests over one shared
//! connection while unsolicited push notifications from the peer are
//! buffered separately. The crate verifies the correlation engine, the
//! wire framing of outbound requests, and the bounded notification
//! buffer; the surrounding process (socket I/O, task scheduling) drives
//! these decisions from outside.

pub mod channels;
pub mod connection;
pub mod errors;
pub mod events;
pub mod facade;
pub mod json;
pub mod params;
pub mod wire;
