//! A JSON-RPC 2.0 client core for request/response transports.
//!
//! The crate verifies the protocol layer of an HTTP-style JSON-RPC client:
//! identifier generation and batch range allocation, serialization of
//! outbound envelopes, correlation of replies to requests (including
//! out-of-order batch replies), concurrency admission, and the mapping of
//! transport outcomes to a precise error taxonomy. The byte transport itself
//! and general-purpose JSON decoding stay outside: the latter is consumed
//! through a small set of trusted declarations over `serde_json`.

pub mod client;
pub mod envelope;
pub mod errors;
pub mod gate;
pub mod ids;
pub mod reply;
pub mod text;
