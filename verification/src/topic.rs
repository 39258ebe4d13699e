use vstd::prelude::*;

verus! {

/// The name of the one topic every session subscribes to.
pub open spec fn topic_name() -> Seq<char> {
    "charmev"@
}

/// The named channel the mesh publishes and subscribes on.
///
/// Exactly one topic is in use per session; it is chosen when `connect`
/// starts a session and read again by `disconnect` to unsubscribe, so the
/// outbound and inbound classification agree on the channel for the whole
/// session lifetime.
pub struct Topic {
    name: String,
}

impl View for Topic {
    type V = Seq<char>;

    closed spec fn view(&self) -> Seq<char> {
        self.name@
    }
}

impl Topic {
    /// The topic of this application.
    pub fn app_topic() -> (t: Topic)
        ensures
            t@ == topic_name(),
    {
        Topic { name: "charmev".to_owned() }
    }

    /// The topic's name, as the gossip layer expects it.
    pub fn name(&self) -> (r: &str)
        ensures
            r@ == self@,
    {
        self.name.as_str()
    }
}

} // verus!
