//! A peer-to-peer gossip event bus.
//!
//! A node joins a mesh of peers, publishes and receives signed application
//! events over one shared topic, and exposes the events it received through a
//! pull-based queue.  This crate holds the verified core: the session state
//! machine behind `connect` and `disconnect`, the classification of protocol
//! events into queued records, the event queue itself, and the byte-level
//! encodings the consumer sees.  Dialing, listening and the gossip transport
//! are driven by an unverified shell that feeds their outcomes back into the
//! core as plain values.

pub mod config;
pub mod errors;
pub mod events;
pub mod laws;
pub mod peers;
pub mod queue;
pub mod session;
pub mod storage;
pub mod topic;
