//! Gateway logic in front of a small fleet of sibling daemons: health
//! aggregation, a bounded-time request relay, and the lifecycle of the
//! duplex broadcast connections.
//!
//! The network work itself (HTTP calls, deadlines, sockets, the shared
//! broadcast channel) happens outside this library; each component here
//! takes what came back as plain values and decides what to report.

mod json;
pub mod hub;
pub mod probe;
pub mod relay;
pub mod text;

pub use json::JsonValue;
