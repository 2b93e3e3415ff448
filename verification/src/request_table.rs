//! The table of RPC requests that still wait for their reply: each request id
//! maps to the channel that the reply goes to.
use vstd::prelude::*;
use std::collections::HashMap;
use crate::network_context::RequestId;

verus! {

broadcast use vstd::std_specs::hash::group_hash_axioms;

/// Pending requests, keyed by request id; `S` is the reply channel.
pub struct RequestTable<S> {
    pending: HashMap<RequestId, S>,
}

impl<S> View for RequestTable<S> {
    type V = Map<RequestId, S>;

    closed spec fn view(&self) -> Map<RequestId, S> {
        self.pending@
    }
}

impl<S> RequestTable<S> {
    /// A table with no pending request.
    pub fn new() -> (t: Self)
        ensures
            t@ == Map::<RequestId, S>::empty(),
    {
        RequestTable { pending: HashMap::new() }
    }

    /// Registers `sender` as the channel for the reply to request `id`; an
    /// earlier channel under the same id is replaced.
    pub fn insert(&mut self, id: RequestId, sender: S)
        ensures
            final(self)@ == old(self)@.insert(id, sender),
    {
        let _ = self.pending.insert(id, sender);
    }

    /// Takes out the channel registered for request `id`, if any.
    pub fn remove(&mut self, id: RequestId) -> (res: Option<S>)
        ensures
            final(self)@ == old(self)@.remove(id),
            match res {
                Some(s) => old(self)@.contains_key(id) && s == old(self)@[id],
                None => !old(self)@.contains_key(id),
            },
    {
        self.pending.remove(&id)
    }
}

} // verus!
