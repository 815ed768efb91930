//! The routing adapter: typed requests against the distributed routing
//! engine, correlated back to their callers, and the pluggable store of the
//! local peer's own provider records.
//!
//! The engine itself — iterative queries, provider announcement, the
//! routing table — is an outside collaborator. The loop asks it to start an
//! operation, parks the caller's handler under the engine-assigned query
//! id, and feeds the engine's terminal events into the `complete_*` and
//! `fail_query` methods here, which resolve the pending entry exactly once.

use vstd::prelude::*;

use crate::data::{FileHash, PeerId};
use crate::pending::PendingTable;
use crate::req_res::{KadResponseData, RequestHandler, Resolution, ResponseData};
use crate::MarketError;

verus! {

/// The provider peers recorded for key `k` in an entry sequence, in record
/// order.
pub open spec fn providers_of(s: Seq<(FileHash, PeerId)>, k: Seq<u8>) -> Seq<Seq<u8>>
    decreases s.len(),
{
    if s.len() == 0 {
        Seq::empty()
    } else {
        let rest = providers_of(s.drop_last(), k);
        if s.last().0@ == k {
            rest.push(s.last().1@)
        } else {
            rest
        }
    }
}

/// The local peer's own provider records: which peers it knows to supply
/// which content key. This in-memory sequence is one concrete backing of
/// the storage capability; routing and correlation logic never look inside
/// it except through `has_provider`.
pub struct ProviderStore {
    records: Vec<(FileHash, PeerId)>,
}

impl ProviderStore {
    /// Whether a record binds key `k` to provider `p`.
    pub closed spec fn has_provider(&self, k: Seq<u8>, p: Seq<u8>) -> bool {
        exists|i: int|
            0 <= i < self.records@.len() && self.records@[i].0@ == k && self.records@[i].1@ == p
    }

    /// The recorded providers of key `k`, in record order.
    pub closed spec fn providers_view(&self, k: Seq<u8>) -> Seq<Seq<u8>> {
        providers_of(self.records@, k)
    }

    /// A store with no record.
    pub fn new() -> (s: Self)
        ensures
            forall|k: Seq<u8>, p: Seq<u8>| !s.has_provider(k, p),
    {
        ProviderStore { records: Vec::new() }
    }

    /// Records `peer` as a provider of `key`. Recording the same pair twice
    /// changes nothing.
    pub fn add_provider(&mut self, key: &FileHash, peer: &PeerId)
        ensures
            forall|k: Seq<u8>, p: Seq<u8>|
                final(self).has_provider(k, p) <==> (old(self).has_provider(k, p) || (k == key@
                    && p == peer@)),
    {
        let n = self.records.len();
        let mut i: usize = 0;
        while i < n
            invariant
                n == self.records@.len(),
                i <= n,
                self == old(self),
                forall|j: int|
                    0 <= j < i ==> !(self.records@[j].0@ == key@ && self.records@[j].1@ == peer@),
            decreases n - i,
        {
            if self.records[i].0.0 == key.0 && self.records[i].1.0 == peer.0 {
                proof {
                    assert(self.records@[i as int].0@ =~= key@);
                    assert(self.records@[i as int].1@ =~= peer@);
                }
                return;
            }
            i = i + 1;
        }
        self.records.push((key.clone(), peer.clone()));
        proof {
            let s0 = old(self).records@;
            let s1 = self.records@;
            assert forall|k: Seq<u8>, p: Seq<u8>|
                self.has_provider(k, p) <==> (old(self).has_provider(k, p) || (k == key@ && p
                    == peer@)) by {
                if old(self).has_provider(k, p) {
                    let j = choose|j: int| 0 <= j < s0.len() && s0[j].0@ == k && s0[j].1@ == p;
                    assert(s1[j].0@ == k && s1[j].1@ == p);
                }
                if k == key@ && p == peer@ {
                    assert(s1[s1.len() - 1].0@ == k && s1[s1.len() - 1].1@ == p);
                }
                if self.has_provider(k, p) {
                    let j = choose|j: int| 0 <= j < s1.len() && s1[j].0@ == k && s1[j].1@ == p;
                    if j < s1.len() - 1 {
                        assert(s0[j].0@ == k && s0[j].1@ == p);
                    }
                }
            }
        }
    }

    /// Hands out the recorded providers of `key`, in record order.
    pub fn providers(&self, key: &FileHash) -> (r: Vec<PeerId>)
        ensures
            r.deep_view() == self.providers_view(key@),
    {
        let n = self.records.len();
        let mut out: Vec<PeerId> = Vec::new();
        let mut i: usize = 0;
        proof {
            assert(self.records@.take(0) =~= Seq::<(FileHash, PeerId)>::empty());
            assert(out.deep_view() =~= providers_of(self.records@.take(0), key@));
        }
        while i < n
            invariant
                n == self.records@.len(),
                i <= n,
                out.deep_view() == providers_of(self.records@.take(i as int), key@),
            decreases n - i,
        {
            proof {
                assert(self.records@.take(i + 1).drop_last() =~= self.records@.take(i as int));
                assert(self.records@.take(i + 1).last() == self.records@[i as int]);
            }
            if self.records[i].0.0 == key.0 {
                proof {
                    assert(self.records@[i as int].0@ =~= key@);
                }
                out.push(self.records[i].1.clone());
                proof {
                    assert(out.deep_view() =~= providers_of(
                        self.records@.take(i + 1),
                        key@,
                    ));
                }
            } else {
                proof {
                    assert(self.records@[i as int].0@ != key@);
                    assert(out.deep_view() =~= providers_of(
                        self.records@.take(i + 1),
                        key@,
                    ));
                }
            }
            i = i + 1;
        }
        proof {
            assert(self.records@.take(n as int) =~= self.records@);
        }
        out
    }
}

/// The recorded providers of a key include every peer a record binds to it.
pub proof fn lemma_providers_complete(s: Seq<(FileHash, PeerId)>, k: Seq<u8>, i: int)
    requires
        0 <= i < s.len(),
        s[i].0@ == k,
    ensures
        providers_of(s, k).contains(s[i].1@),
    decreases s.len(),
{
    if i == s.len() - 1 {
        let r = providers_of(s, k);
        assert(r[r.len() - 1] == s[i].1@);
    } else {
        assert(s.drop_last()[i] == s[i]);
        lemma_providers_complete(s.drop_last(), k, i);
        let rest = providers_of(s.drop_last(), k);
        let j = choose|j: int| 0 <= j < rest.len() && rest[j] == s[i].1@;
        assert(providers_of(s, k)[j] == s[i].1@);
    }
}

/// Registration round-trip, seen at the store: once a provider record for
/// `key` and `peer` has been added — which is what `add_provider`
/// guarantees of the store it leaves behind — the providers of `key`
/// include `peer`. The network half of the round trip, a remote node
/// learning of the record through the routing engine, is the engine's
/// business; whatever provider set the engine eventually hands back is
/// delivered verbatim by `complete_get_providers`.
pub proof fn lemma_registration_round_trip(
    pre: ProviderStore,
    post: ProviderStore,
    key: Seq<u8>,
    peer: Seq<u8>,
)
    requires
        forall|k: Seq<u8>, p: Seq<u8>|
            post.has_provider(k, p) <==> (pre.has_provider(k, p) || (k == key && p == peer)),
    ensures
        post.has_provider(key, peer),
        post.providers_view(key).contains(peer),
{
    assert(post.has_provider(key, peer));
    let i = choose|i: int|
        0 <= i < post.records@.len() && post.records@[i].0@ == key && post.records@[i].1@ == peer;
    lemma_providers_complete(post.records@, key, i);
}

/// The routing adapter's correlation state: the pending table for engine
/// queries, and the local provider-record store.
pub struct KadHandler {
    pending: PendingTable,
    store: ProviderStore,
}

impl KadHandler {
    /// The pending-request table's contents.
    pub closed spec fn pending_view(&self) -> Map<u64, RequestHandler> {
        self.pending@
    }

    /// The local provider-record store.
    pub closed spec fn store_view(&self) -> ProviderStore {
        self.store
    }

    /// A fresh adapter: nothing pending, nothing recorded.
    pub fn new() -> (h: Self)
        ensures
            h.pending_view() == Map::<u64, RequestHandler>::empty(),
            forall|k: Seq<u8>, p: Seq<u8>| !h.store_view().has_provider(k, p),
    {
        KadHandler { pending: PendingTable::new(), store: ProviderStore::new() }
    }

    /// Whether a query with this correlation id is outstanding.
    pub fn is_pending(&self, query_id: u64) -> (r: bool)
        ensures
            r == self.pending_view().contains_key(query_id),
    {
        self.pending.contains(query_id)
    }

    /// Parks a caller's handler under the query id the engine assigned to a
    /// freshly started network operation. The id is fresh — not among the
    /// outstanding ids — so no parked handler is displaced.
    pub fn issue(&mut self, query_id: u64, request_handler: RequestHandler)
        requires
            !old(self).pending_view().contains_key(query_id),
        ensures
            final(self).pending_view()
                == old(self).pending_view().insert(query_id, request_handler),
            final(self).store_view() == old(self).store_view(),
    {
        self.pending.insert(query_id, request_handler);
    }

    /// Persists the local peer's own provider record for a key it is about
    /// to announce.
    pub fn record_local_provider(&mut self, key: &FileHash, peer: &PeerId)
        ensures
            final(self).pending_view() == old(self).pending_view(),
            forall|k: Seq<u8>, p: Seq<u8>|
                final(self).store_view().has_provider(k, p) <==> (old(
                    self,
                ).store_view().has_provider(k, p) || (k == key@ && p == peer@)),
    {
        self.store.add_provider(key, peer);
    }

    /// The recorded providers of `key` in the local store.
    pub fn local_providers(&self, key: &FileHash) -> (r: Vec<PeerId>)
        ensures
            r.deep_view() == self.store_view().providers_view(key@),
    {
        self.store.providers(key)
    }

    /// A closest-peers query finished: whoever waits under `query_id` is
    /// owed the engine's peer list, exactly once; an unknown id is a no-op.
    pub fn complete_closest_peers(&mut self, query_id: u64, key: Vec<u8>, peers: Vec<PeerId>) -> (r:
        Option<Resolution>)
        ensures
            final(self).pending_view() == old(self).pending_view().remove(query_id),
            final(self).store_view() == old(self).store_view(),
            if old(self).pending_view().contains_key(query_id) {
                r matches Some(resolution) && resolution.request_handler == old(
                    self,
                ).pending_view()[query_id] && resolution.response == Ok::<
                    ResponseData,
                    crate::MarketError,
                >(ResponseData::KadResponse(KadResponseData::ClosestPeers { key, peers }))
            } else {
                r is None
            },
    {
        match self.pending.take(query_id) {
            Some(request_handler) => Some(
                Resolution {
                    request_handler,
                    response: Ok(
                        ResponseData::KadResponse(KadResponseData::ClosestPeers { key, peers }),
                    ),
                },
            ),
            None => None,
        }
    }

    /// A provider announcement finished: the registering caller is owed the
    /// acknowledgement for its key, exactly once.
    pub fn complete_register(&mut self, query_id: u64, key: Vec<u8>) -> (r: Option<Resolution>)
        ensures
            final(self).pending_view() == old(self).pending_view().remove(query_id),
            final(self).store_view() == old(self).store_view(),
            if old(self).pending_view().contains_key(query_id) {
                r matches Some(resolution) && resolution.request_handler == old(
                    self,
                ).pending_view()[query_id] && resolution.response == Ok::<
                    ResponseData,
                    crate::MarketError,
                >(ResponseData::KadResponse(KadResponseData::RegisterFile { key }))
            } else {
                r is None
            },
    {
        match self.pending.take(query_id) {
            Some(request_handler) => Some(
                Resolution {
                    request_handler,
                    response: Ok(ResponseData::KadResponse(KadResponseData::RegisterFile { key })),
                },
            ),
            None => None,
        }
    }

    /// A provider query finished: the caller is owed the provider set the
    /// engine gathered, verbatim, exactly once.
    pub fn complete_get_providers(
        &mut self,
        query_id: u64,
        key: Vec<u8>,
        providers: Vec<PeerId>,
    ) -> (r: Option<Resolution>)
        ensures
            final(self).pending_view() == old(self).pending_view().remove(query_id),
            final(self).store_view() == old(self).store_view(),
            if old(self).pending_view().contains_key(query_id) {
                r matches Some(resolution) && resolution.request_handler == old(
                    self,
                ).pending_view()[query_id] && resolution.response == Ok::<
                    ResponseData,
                    crate::MarketError,
                >(ResponseData::KadResponse(KadResponseData::GetProviders { key, providers }))
            } else {
                r is None
            },
    {
        match self.pending.take(query_id) {
            Some(request_handler) => Some(
                Resolution {
                    request_handler,
                    response: Ok(
                        ResponseData::KadResponse(
                            KadResponseData::GetProviders { key, providers },
                        ),
                    ),
                },
            ),
            None => None,
        }
    }

    /// Any query that ends without a result — engine failure or timeout —
    /// still produces its one terminal delivery: the waiting caller is owed
    /// `Err(NetworkOutboundFailure)` through the same channel as any other
    /// outcome, so no pending entry is ever leaked and no failure is a
    /// distinguished fatal path.
    pub fn fail_query(&mut self, query_id: u64) -> (r: Option<Resolution>)
        ensures
            final(self).pending_view() == old(self).pending_view().remove(query_id),
            final(self).store_view() == old(self).store_view(),
            if old(self).pending_view().contains_key(query_id) {
                r matches Some(resolution) && resolution.request_handler == old(
                    self,
                ).pending_view()[query_id] && resolution.response == Err::<
                    ResponseData,
                    crate::MarketError,
                >(MarketError::NetworkOutboundFailure)
            } else {
                r is None
            },
    {
        match self.pending.take(query_id) {
            Some(request_handler) => Some(
                Resolution {
                    request_handler,
                    response: Err(MarketError::NetworkOutboundFailure),
                },
            ),
            None => None,
        }
    }
}

/// Answers a local routing-table lookup. The closest locally known peers
/// come straight out of the engine without a network round trip, so no
/// correlation id is issued and no pending entry is created: the caller is
/// owed this resolution at once.
pub fn complete_closest_local_peers(request_handler: RequestHandler, peers: Vec<PeerId>) -> (r:
    Resolution)
    ensures
        r.request_handler == request_handler,
        r.response == Ok::<ResponseData, crate::MarketError>(
            ResponseData::KadResponse(KadResponseData::ClosestLocalPeers { peers }),
        ),
{
    Resolution {
        request_handler,
        response: Ok(ResponseData::KadResponse(KadResponseData::ClosestLocalPeers { peers })),
    }
}

} // verus!
