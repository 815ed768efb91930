//! The pending-request table: the shared correlation discipline of every
//! sub-protocol that issues asynchronous operations.
//!
//! A table maps a protocol-scoped correlation id to the [`RequestHandler`]
//! of the caller that is waiting on that operation. The table is owned
//! exclusively by the event loop: entries are inserted only when an
//! operation is issued and taken out only when its terminal event arrives,
//! paired one to one. Taking an entry moves the handler out, so delivering
//! through it consumes it and no id can ever be resolved twice; a terminal
//! event for an id that is not pending is a no-op, never a panic or a
//! corruption of the other entries.

use std::collections::HashMap;

use vstd::prelude::*;

use crate::req_res::RequestHandler;

verus! {

broadcast use vstd::std_specs::hash::group_hash_axioms;

/// Maps each outstanding correlation id to the reply channel of the caller
/// waiting on it.
pub struct PendingTable {
    entries: HashMap<u64, RequestHandler>,
}

impl View for PendingTable {
    type V = Map<u64, RequestHandler>;

    closed spec fn view(&self) -> Map<u64, RequestHandler> {
        self.entries@
    }
}

impl PendingTable {
    /// A table with no outstanding operation.
    pub fn new() -> (t: Self)
        ensures
            t@ == Map::<u64, RequestHandler>::empty(),
    {
        PendingTable { entries: HashMap::new() }
    }

    /// Parks `handler` under the correlation id of a freshly issued
    /// operation.
    pub fn insert(&mut self, id: u64, handler: RequestHandler)
        ensures
            final(self)@ == old(self)@.insert(id, handler),
    {
        self.entries.insert(id, handler);
    }

    /// Consumes the entry for a terminal event. If `id` is pending, the
    /// handler moves out — exactly once — and the entry is gone; if it is
    /// not (already resolved, or never issued), the table is left exactly
    /// as it was.
    pub fn take(&mut self, id: u64) -> (r: Option<RequestHandler>)
        ensures
            final(self)@ == old(self)@.remove(id),
            match r {
                Some(handler) => old(self)@.contains_key(id) && handler == old(self)@[id],
                None => !old(self)@.contains_key(id),
            },
    {
        let r = self.entries.remove(&id);
        proof {
            if !old(self)@.contains_key(id) {
                assert(self.entries@ =~= old(self)@.remove(id));
            }
        }
        r
    }

    /// Whether an operation with this correlation id is still outstanding.
    pub fn contains(&self, id: u64) -> (r: bool)
        ensures
            r == self@.contains_key(id),
    {
        self.entries.contains_key(&id)
    }
}

/// Exactly-once delivery, seen from the table: once the terminal event for a
/// correlation id has consumed its entry, no entry remains under that id, so
/// a second terminal event for the same id can deliver nothing. (That some
/// terminal event eventually arrives is the engine's obligation; every
/// engine outcome, failure and timeout included, is routed through one
/// `take`.)
pub proof fn lemma_at_most_once_delivery(table: Map<u64, RequestHandler>, id: u64)
    ensures
        !table.remove(id).contains_key(id),
{
}

/// One submission, one resolution: the handler parked under a correlation
/// id is exactly what the terminal event for that id takes out, and the
/// consumed entry leaves nothing behind to resolve again.
pub proof fn lemma_insert_then_take(
    table: Map<u64, RequestHandler>,
    id: u64,
    handler: RequestHandler,
)
    ensures
        table.insert(id, handler)[id] == handler,
        !table.insert(id, handler).remove(id).contains_key(id),
{
}

/// Unknown-id resilience: a terminal event for an id that is not pending
/// leaves the table exactly as it was.
pub proof fn lemma_unknown_id_is_no_op(table: Map<u64, RequestHandler>, id: u64)
    requires
        !table.contains_key(id),
    ensures
        table.remove(id) == table,
{
    assert(table.remove(id) =~= table);
}

/// Resolving one correlation id never disturbs another: every other pending
/// entry still resolves to the same handler afterwards.
pub proof fn lemma_resolution_is_independent(
    table: Map<u64, RequestHandler>,
    id: u64,
    other: u64,
)
    requires
        other != id,
    ensures
        table.remove(id).contains_key(other) == table.contains_key(other),
        table.contains_key(other) ==> table.remove(id)[other] == table[other],
{
}

} // verus!
