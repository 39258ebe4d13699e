use vstd::prelude::*;

verus! {

/// The process-wide event sink: an ordered, append-at-tail / remove-at-head
/// buffer of serialized event payloads.
///
/// Records are enqueued in the exact order the session loop observed the
/// events they stand for; nothing is ever reordered, deduplicated or dropped,
/// and a record leaves the queue only through [`EventQueue::retrieve_next_event`].
pub struct EventQueue {
    items: Vec<Vec<u8>>,
}

impl View for EventQueue {
    type V = Seq<Seq<u8>>;

    closed spec fn view(&self) -> Seq<Seq<u8>> {
        self.items.deep_view()
    }
}

impl EventQueue {
    /// An empty queue.
    pub fn new() -> (q: EventQueue)
        ensures
            q@ == Seq::<Seq<u8>>::empty(),
    {
        let q = EventQueue { items: Vec::new() };
        proof {
            assert(q@ =~= Seq::<Seq<u8>>::empty());
        }
        q
    }

    /// How many records are buffered.
    pub fn len(&self) -> (n: usize)
        ensures
            n == self@.len(),
    {
        self.items.len()
    }

    /// Append one serialized record at the tail.
    pub fn push_record(&mut self, payload: Vec<u8>)
        ensures
            final(self)@ == old(self)@.push(payload@),
    {
        let ghost prior = self.items.deep_view();
        self.items.push(payload);
        proof {
            assert(self.items.deep_view() =~= prior.push(payload.deep_view()));
            assert(payload.deep_view() =~= payload@);
        }
    }

    /// Remove and return the oldest buffered record, or report the queue
    /// empty.
    pub fn retrieve_next_event(&mut self) -> (r: Option<Vec<u8>>)
        ensures
            match r {
                Option::None => old(self)@.len() == 0 && final(self)@ == old(self)@,
                Option::Some(payload) => old(self)@.len() > 0 && payload@ == old(self)@[0]
                    && final(self)@ == old(self)@.drop_first(),
            },
    {
        if self.items.len() == 0 {
            None
        } else {
            let ghost prior = self.items.deep_view();
            let payload = self.items.remove(0);
            proof {
                assert(payload.deep_view() =~= payload@);
                assert(self.items.deep_view() =~= prior.drop_first());
            }
            Some(payload)
        }
    }
}

} // verus!
