use vstd::prelude::*;

use crate::events::{lifecycle_record, LifecycleEvent, MeshEvent};
use crate::session::step_queue;

verus! {

/// The queue after the session loop has classified a whole sequence of
/// observed events, in order.
pub open spec fn run_queue(q: Seq<Seq<u8>>, evs: Seq<MeshEvent>) -> Seq<Seq<u8>>
    decreases evs.len(),
{
    if evs.len() == 0 {
        q
    } else {
        run_queue(step_queue(q, evs[0]), evs.drop_first())
    }
}

/// Classifying events only ever appends: whatever was queued stays, at its
/// index, whatever the loop observes afterwards.  No record is reordered,
/// replaced or dropped except by explicit retrieval.
pub proof fn lemma_run_queue_appends(q: Seq<Seq<u8>>, evs: Seq<MeshEvent>)
    ensures
        q.len() <= run_queue(q, evs).len(),
        forall|i: int| 0 <= i < q.len() ==> run_queue(q, evs)[i] == q[i],
    decreases evs.len(),
{
    if evs.len() > 0 {
        let stepped = step_queue(q, evs[0]);
        lemma_run_queue_appends(stepped, evs.drop_first());
        assert forall|i: int| 0 <= i < q.len() implies run_queue(q, evs)[i] == q[i] by {
            assert(stepped[i] == q[i]);
            assert(run_queue(stepped, evs.drop_first())[i] == stepped[i]);
        }
    }
}

/// What a run of events contributes does not depend on what was already
/// queued: the result is always the prior queue followed by the records of
/// the run itself.
pub proof fn lemma_run_queue_splits(q: Seq<Seq<u8>>, evs: Seq<MeshEvent>)
    ensures
        run_queue(q, evs) == q + run_queue(Seq::<Seq<u8>>::empty(), evs),
    decreases evs.len(),
{
    if evs.len() == 0 {
        assert(run_queue(q, evs) =~= q + run_queue(Seq::<Seq<u8>>::empty(), evs));
    } else {
        let ev = evs[0];
        let rest = evs.drop_first();
        lemma_run_queue_splits(step_queue(q, ev), rest);
        lemma_run_queue_splits(step_queue(Seq::<Seq<u8>>::empty(), ev), rest);
        assert(step_queue(q, ev) =~= q + step_queue(Seq::<Seq<u8>>::empty(), ev));
        assert(step_queue(q, ev) + run_queue(Seq::<Seq<u8>>::empty(), rest)
            =~= q + (step_queue(Seq::<Seq<u8>>::empty(), ev)
                + run_queue(Seq::<Seq<u8>>::empty(), rest)));
        assert(run_queue(Seq::<Seq<u8>>::empty(), evs)
            == step_queue(Seq::<Seq<u8>>::empty(), ev)
                + run_queue(Seq::<Seq<u8>>::empty(), rest));
    }
}

/// An accepted dial enqueues exactly one peer-connected record, and that
/// record precedes every record a later observed event leaves behind — in
/// particular every received message of the session that the dial opened.
pub proof fn lemma_peer_connected_precedes_messages(q: Seq<Seq<u8>>, evs: Seq<MeshEvent>)
    ensures
        run_queue(q.push(lifecycle_record(LifecycleEvent::PeerConnected)), evs)
            == q.push(lifecycle_record(LifecycleEvent::PeerConnected))
                + run_queue(Seq::<Seq<u8>>::empty(), evs),
        run_queue(q.push(lifecycle_record(LifecycleEvent::PeerConnected)), evs)[q.len() as int]
            == lifecycle_record(LifecycleEvent::PeerConnected),
{
    let dialed = q.push(lifecycle_record(LifecycleEvent::PeerConnected));
    lemma_run_queue_splits(dialed, evs);
    lemma_run_queue_appends(dialed, evs);
}

/// Messages are never reordered: when one message arrives, then any events,
/// then a second message, the first payload sits at a strictly earlier
/// index than the second, and both payloads are queued verbatim.  Since
/// retrieval removes records from the head, they are also retrieved in this
/// order.
pub proof fn lemma_message_order(
    q: Seq<Seq<u8>>,
    first: Vec<u8>,
    between: Seq<MeshEvent>,
    second: Vec<u8>,
)
    ensures
        ({
            let q1 = step_queue(q, MeshEvent::MessageReceived { payload: first });
            let q2 = step_queue(
                run_queue(q1, between),
                MeshEvent::MessageReceived { payload: second },
            );
            &&& q2[q.len() as int] == first@
            &&& q2[q2.len() - 1] == second@
            &&& q.len() < q2.len() - 1
        }),
{
    let q1 = step_queue(q, MeshEvent::MessageReceived { payload: first });
    lemma_run_queue_appends(q1, between);
    let qb = run_queue(q1, between);
    let q2 = step_queue(qb, MeshEvent::MessageReceived { payload: second });
    assert(q2[q.len() as int] == q1[q.len() as int]);
}

/// Round trip: a received payload is queued byte for byte, so what the
/// consumer later retrieves at that position equals the published payload
/// exactly.
pub proof fn lemma_message_payload_verbatim(q: Seq<Seq<u8>>, payload: Vec<u8>)
    ensures
        step_queue(q, MeshEvent::MessageReceived { payload }).last() == payload@,
        step_queue(q, MeshEvent::MessageReceived { payload })
            == q.push(payload@),
{
}

/// Only a confirmed subscription or a validated message leaves a record:
/// every other observed event — and in particular the absence of any event,
/// which is all an unsigned or tampered message produces under strict
/// validation — leaves the queue exactly as it was.
pub proof fn lemma_silent_events_enqueue_nothing(q: Seq<Seq<u8>>, ev: MeshEvent)
    requires
        !(ev matches MeshEvent::PeerSubscribed),
        !(ev matches MeshEvent::MessageReceived { .. }),
    ensures
        step_queue(q, ev) == q,
{
}

} // verus!
