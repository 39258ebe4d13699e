use vstd::prelude::*;

use crate::errors::Error;
use crate::events::{encode_lifecycle, lifecycle_record, LifecycleEvent, MeshEvent};
use crate::peers::{
    parse_multiaddr, parse_peer_id, parsed_multiaddr, parsed_peer_id,
};
use crate::queue::EventQueue;
use crate::topic::{topic_name, Topic};

verus! {

/// Where a session stands in its lifecycle.
///
/// `connect` moves an idle (or replaced) session to `Listening`; a dial that
/// was accepted moves it on to `Connected`, and the loop's
/// connection-closed event ends it at `Closed`.  The transient dialing
/// moment is not a state of its own here because issuing the dial and
/// learning whether it was accepted happen in one step.
#[derive(Clone, Copy, Debug, PartialEq, Eq, Structural)]
pub enum Phase {
    Idle,
    Listening,
    Connected,
    Closed,
}

/// Whether a session in this phase is participating in the mesh.
pub open spec fn session_active(p: Phase) -> bool {
    p == Phase::Listening || p == Phase::Connected
}

/// What `disconnect` asks the unverified shell to do.
pub enum DisconnectAction {
    /// No session is active: nothing to do, and that is not an error.
    NoOp,
    /// Unsubscribe from the session's topic, then force-close the
    /// connection to this peer.
    CloseConnection { peer: libp2p::PeerId },
}

/// How one observed event changes the queue of serialized records.
///
/// A confirmed subscription enqueues its lifecycle record; a signed
/// application message enqueues its payload bytes verbatim; every other
/// event leaves the queue untouched.
pub open spec fn step_queue(q: Seq<Seq<u8>>, ev: MeshEvent) -> Seq<Seq<u8>> {
    match ev {
        MeshEvent::PeerSubscribed => q.push(lifecycle_record(LifecycleEvent::PeerSubscribed)),
        MeshEvent::MessageReceived { payload } => q.push(payload@),
        _ => q,
    }
}

/// One node's participation in the mesh: the session lifecycle, the shared
/// topic, and the sink of events waiting for the consumer.
///
/// The unverified shell owns the transport and drives the asynchronous
/// event loop; every decision — whether an input parses, what a session
/// transition is, which record a protocol event leaves behind — is made
/// here, on plain values.
pub struct MeshSession {
    /// The lifecycle phase of the current (or last) session.
    pub phase: Phase,
    /// The topic the session subscribed to, once one has started.
    pub topic: Option<Topic>,
    /// The buffered event records, oldest first.
    pub queue: EventQueue,
}

impl MeshSession {
    /// An active session always has a topic to unsubscribe from.
    pub open spec fn wf(self) -> bool {
        session_active(self.phase) ==> self.topic is Some
    }

    /// A node that has not started any session: no topic, nothing queued.
    pub fn new() -> (s: MeshSession)
        ensures
            s.phase == Phase::Idle,
            s.topic is None,
            s.queue@ == Seq::<Seq<u8>>::empty(),
            s.wf(),
    {
        MeshSession { phase: Phase::Idle, topic: None, queue: EventQueue::new() }
    }

    /// Start a session toward the given textual peer address, replacing any
    /// prior session.
    ///
    /// A malformed address is rejected synchronously with a parse error and
    /// changes nothing — in particular it enqueues no event.  On a
    /// well-formed address the session subscribes to the application topic,
    /// enters `Listening`, and exactly the address the input text names is
    /// handed back for the shell to bind a listener and issue the dial.
    /// Queued records from an earlier session stay: nothing leaves the
    /// queue except retrieval.
    pub fn connect(&mut self, peer_address: &str) -> (r: Result<libp2p::Multiaddr, Error>)
        ensures
            final(self).queue@ == old(self).queue@,
            r is Ok <==> parsed_multiaddr(peer_address@) is Some,
            r matches Ok(address) ==> parsed_multiaddr(peer_address@) == Some(address),
            r is Err ==> r == Err::<libp2p::Multiaddr, Error>(Error::AddressParse)
                && *final(self) == *old(self),
            r is Ok ==> final(self).phase == Phase::Listening
                && (final(self).topic matches Some(t) && t@ == topic_name()),
            old(self).wf() ==> final(self).wf(),
    {
        match parse_multiaddr(peer_address) {
            None => Err(Error::AddressParse),
            Some(address) => {
                self.phase = Phase::Listening;
                self.topic = Some(Topic::app_topic());
                Ok(address)
            },
        }
    }

    /// Record the outcome of the dial that `connect` asked for.
    ///
    /// An accepted dial enqueues exactly one peer-connected record and moves
    /// the session to `Connected`; a failed dial enqueues exactly one
    /// connection-failed record and the session stays listening.  Either
    /// way the outcome is an event for the consumer, never an error.
    pub fn record_dial_outcome(&mut self, accepted: bool)
        requires
            old(self).phase == Phase::Listening,
        ensures
            final(self).topic == old(self).topic,
            final(self).phase == (if accepted { Phase::Connected } else { Phase::Listening }),
            final(self).queue@ == old(self).queue@.push(
                lifecycle_record(
                    if accepted { LifecycleEvent::PeerConnected }
                    else { LifecycleEvent::PeerConnectionFailed },
                ),
            ),
            old(self).wf() ==> final(self).wf(),
    {
        let outcome = if accepted { LifecycleEvent::PeerConnected }
            else { LifecycleEvent::PeerConnectionFailed };
        let record = encode_lifecycle(&outcome);
        self.queue.push_record(record);
        if accepted {
            self.phase = Phase::Connected;
        }
    }

    /// Classify one event observed by the session loop.
    ///
    /// The queue changes exactly as [`step_queue`] says; a connection-closed
    /// event ends the session and is the only event on which the loop must
    /// exit, which the returned flag reports.  No other event touches the
    /// phase or the topic.
    pub fn on_swarm_event(&mut self, ev: MeshEvent) -> (exit: bool)
        ensures
            final(self).topic == old(self).topic,
            exit == (ev matches MeshEvent::ConnectionClosed),
            final(self).phase == (if (ev matches MeshEvent::ConnectionClosed) { Phase::Closed }
                else { old(self).phase }),
            final(self).queue@ == step_queue(old(self).queue@, ev),
            old(self).wf() ==> final(self).wf(),
    {
        match ev {
            MeshEvent::NewListenAddr => false,
            MeshEvent::ConnectionClosed => {
                self.phase = Phase::Closed;
                true
            },
            MeshEvent::PeerSubscribed => {
                let record = encode_lifecycle(&LifecycleEvent::PeerSubscribed);
                self.queue.push_record(record);
                false
            },
            MeshEvent::MessageReceived { payload } => {
                self.queue.push_record(payload);
                false
            },
            MeshEvent::ProtocolInternal => false,
        }
    }

    /// Decide what disconnecting from the given textual peer identifier
    /// means right now.
    ///
    /// A malformed identifier is a parse error.  With no active session the
    /// call is a no-op and succeeds.  With an active session the shell is
    /// told to unsubscribe from the topic and force-close the connection to
    /// exactly the peer the input text names; the session itself
    /// transitions only later, when the loop observes the resulting
    /// connection-closed event.  Nothing here changes the node, and no
    /// event is enqueued.
    pub fn disconnect(&self, peer_id: &str) -> (r: Result<DisconnectAction, Error>)
        ensures
            r is Ok <==> parsed_peer_id(peer_id@) is Some,
            r is Err ==> r == Err::<DisconnectAction, Error>(Error::PeerIdParse),
            r is Ok ==> (r->Ok_0 is NoOp <==> !session_active(self.phase)),
            r matches Ok(DisconnectAction::CloseConnection { peer })
                ==> parsed_peer_id(peer_id@) == Some(peer),
    {
        match parse_peer_id(peer_id) {
            None => Err(Error::PeerIdParse),
            Some(peer) => {
                match self.phase {
                    Phase::Listening => Ok(DisconnectAction::CloseConnection { peer }),
                    Phase::Connected => Ok(DisconnectAction::CloseConnection { peer }),
                    _ => Ok(DisconnectAction::NoOp),
                }
            },
        }
    }

    /// Remove and return the oldest buffered event record, if any.
    pub fn retrieve_next_event(&mut self) -> (r: Option<Vec<u8>>)
        ensures
            final(self).phase == old(self).phase,
            final(self).topic == old(self).topic,
            match r {
                Option::None => old(self).queue@.len() == 0
                    && final(self).queue@ == old(self).queue@,
                Option::Some(payload) => old(self).queue@.len() > 0
                    && payload@ == old(self).queue@[0]
                    && final(self).queue@ == old(self).queue@.drop_first(),
            },
            old(self).wf() ==> final(self).wf(),
    {
        self.queue.retrieve_next_event()
    }

    /// The active topic, if a session has been started.
    pub fn peek_topic(&self) -> (r: Option<&Topic>)
        ensures
            match r {
                Option::Some(t) => self.topic matches Some(own) && t@ == own@,
                Option::None => self.topic is None,
            },
    {
        match &self.topic {
            Some(t) => Some(t),
            None => None,
        }
    }

    /// How many event records are waiting for the consumer.
    pub fn queue_len(&self) -> (n: usize)
        ensures
            n == self.queue@.len(),
    {
        self.queue.len()
    }
}

} // verus!
