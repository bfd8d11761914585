//! Actions: the one result a plugin may produce for an event. A `Respond`
//! goes to the origin-chat sink as a reply; a `Broadcast` goes to the
//! broadcast sink as a structured message.

use vstd::prelude::*;

verus! {

/// The payload of a broadcast action: a message kind and a resource address.
pub struct BroadcastMsg {
    pub kind: String,
    pub url: String,
}

impl BroadcastMsg {
    pub fn new(kind: &str, url: &str) -> (r: Self)
        ensures
            r.kind@ == kind@,
            r.url@ == url@,
    {
        BroadcastMsg { kind: kind.to_owned(), url: url.to_owned() }
    }
}

/// At most one action comes back per plugin per event; `None` stands for no
/// action at all.
pub enum Action {
    Respond(String),
    Broadcast(BroadcastMsg),
}

} // verus!
