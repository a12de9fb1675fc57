//! Producer-side multiplexing core for a topic-based publish/subscribe client.
//!
//! The crate models the client's producer machinery as a collection of pure
//! state machines: a per-session sequence-number generator, a per-topic
//! session creation handshake, and a multiplexing engine that owns the
//! topic-to-session maps and deduplicates concurrent creation attempts.
//! All network activity (lookup, create, send and close RPCs) is performed by
//! the surrounding driver, which feeds results back into the state machines
//! as plain values; the machines describe exactly which RPCs to issue.

pub mod assoc;
pub mod engine;
pub mod errors;
pub mod json;
pub mod message;
pub mod sequence;
pub mod session;
