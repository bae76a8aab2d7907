//! A minimal distributed-node protocol engine: a message envelope and body
//! taxonomy, an initialization-gated dispatch state machine, a gossip-style
//! value-broadcast protocol with deduplication and topology-aware fan-out,
//! and a bit-packed unique-id generator. Every handler's behavior is stated
//! in its contract; the transport that reads and writes wire records lives
//! outside this crate.

pub mod broadcast;
pub mod echo;
pub mod engine;
pub mod helper;
pub mod message;
pub mod uid;
pub mod uniqueids;
