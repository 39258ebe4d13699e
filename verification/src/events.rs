use vstd::prelude::*;

verus! {

/// A lifecycle notification produced while a session runs.
///
/// These are the inbound events that are not application messages: the
/// outcome of a dial and a peer's subscription to the shared topic.
/// Application messages carry their own payload bytes instead and are queued
/// verbatim.
#[derive(Clone, Copy, Debug, PartialEq, Eq, Structural)]
pub enum LifecycleEvent {
    /// A dial was issued and accepted.
    PeerConnected,
    /// A dial failed.
    PeerConnectionFailed,
    /// A peer subscribed to the shared topic.
    PeerSubscribed,
}

/// The serialized record of a lifecycle event: a single tag byte.
///
/// The queue holds opaque binary records; lifecycle notifications use these
/// three distinct tags, while an application message is queued as its raw
/// payload bytes.
pub open spec fn lifecycle_record(e: LifecycleEvent) -> Seq<u8> {
    match e {
        LifecycleEvent::PeerConnected => seq![1u8],
        LifecycleEvent::PeerConnectionFailed => seq![2u8],
        LifecycleEvent::PeerSubscribed => seq![3u8],
    }
}

/// Serialize a lifecycle event for the queue.
pub fn encode_lifecycle(e: &LifecycleEvent) -> (r: Vec<u8>)
    ensures
        r@ == lifecycle_record(*e),
{
    let tag: u8 = match e {
        LifecycleEvent::PeerConnected => 1,
        LifecycleEvent::PeerConnectionFailed => 2,
        LifecycleEvent::PeerSubscribed => 3,
    };
    let mut r: Vec<u8> = Vec::new();
    r.push(tag);
    proof {
        assert(r@ =~= lifecycle_record(*e));
    }
    r
}

/// One event observed by the session's event loop, reduced to what the
/// classification path reads.
///
/// The unverified shell maps each swarm- or gossip-level event to one of
/// these before handing it to the session.  Under strict validation the
/// protocol layer has already dropped every unsigned or tampered message, so
/// a `MessageReceived` stands only for a message whose signature verified.
pub enum MeshEvent {
    /// A local listen address became active (observability only).
    NewListenAddr,
    /// A connection closed; the session loop exits on this.
    ConnectionClosed,
    /// A peer's subscription to the shared topic was confirmed.
    PeerSubscribed,
    /// A signed application message arrived with the given payload.
    MessageReceived { payload: Vec<u8> },
    /// Any other protocol-internal event (mesh graft or prune, peer
    /// exchange, ...); consumed without effect.
    ProtocolInternal,
}

} // verus!
