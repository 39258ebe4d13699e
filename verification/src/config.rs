use vstd::prelude::*;

verus! {

/// Protocol configuration for the gossip behaviour.
///
/// The mesh maintenance heartbeat runs at a fixed interval, and validation is
/// strict: every message must carry a verifiable signature from its publisher
/// before the protocol layer accepts it.  Unsigned or malformed messages are
/// dropped by that layer and never reach the session's classification path.
pub struct GossipConfig {
    /// Seconds between mesh maintenance heartbeats.
    pub heartbeat_secs: u64,
    /// Whether every message must be signed by its publisher.
    pub strict_validation: bool,
}

impl GossipConfig {
    /// The configuration every session runs with.
    pub fn mesh_default() -> (c: GossipConfig)
        ensures
            c.heartbeat_secs == 10,
            c.strict_validation,
    {
        GossipConfig { heartbeat_secs: 10, strict_validation: true }
    }
}

} // verus!
