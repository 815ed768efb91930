//! Composition of the three sub-protocol dispatch states — distributed
//! routing, peer identification, and the file-supplier lookup protocol —
//! into one surface the event loop polls.
//!
//! No algorithmic logic lives here: events arrive as an explicit tagged
//! union and are routed to the sub-protocol that owns them by an
//! exhaustive match, so adding a protocol means adding a union variant and
//! a handler arm, and an unhandled variant is a type error, not a runtime
//! default.

use vstd::prelude::*;

use crate::data::{PeerId, SupplierInfo};
use crate::file_req_res::{pending_after_event, FileReqResEvent, FileReqResHandler, LookupEffect};
use crate::kad::KadHandler;
use crate::market_map::MarketMap;
use crate::req_res::{deliver, RequestHandler};

verus! {

/// Dispatch state of the peer-identification protocol. Its events are
/// informational: nothing in the marketplace logic depends on them, so the
/// composition acknowledges and explicitly ignores each one.
pub struct Identify {}

impl Identify {
    pub fn new() -> Identify {
        Identify {  }
    }
}

/// A terminal event of the routing engine for one of this node's queries.
pub enum KadEvent {
    ClosestPeersFinished { query_id: u64, key: Vec<u8>, peers: Vec<PeerId> },
    RegisterFinished { query_id: u64, key: Vec<u8> },
    ProvidersFinished { query_id: u64, key: Vec<u8>, providers: Vec<PeerId> },
    /// The query ended without a result: engine failure or timeout.
    QueryFailed { query_id: u64 },
}

/// An event of the peer-identification protocol.
pub enum IdentifyEvent {
    Received { peer: PeerId },
    Sent { peer: PeerId },
    Error { peer: PeerId },
}

/// The tagged union of sub-protocol events the loop routes.
pub enum MarketBehaviourEvent {
    Kad(KadEvent),
    Identify(IdentifyEvent),
    FileReqRes(FileReqResEvent),
}

/// The correlation id a routing event resolves.
pub open spec fn kad_event_query_id(event: KadEvent) -> u64 {
    match event {
        KadEvent::ClosestPeersFinished { query_id, .. } => query_id,
        KadEvent::RegisterFinished { query_id, .. } => query_id,
        KadEvent::ProvidersFinished { query_id, .. } => query_id,
        KadEvent::QueryFailed { query_id } => query_id,
    }
}

/// The composed dispatch surface: each sub-protocol's state, mutated
/// independently, polled as one.
pub struct MarketBehaviour {
    pub kademlia: KadHandler,
    pub identify: Identify,
    pub file_req_res: FileReqResHandler,
}

impl MarketBehaviour {
    pub fn new(kademlia: KadHandler, identify: Identify, file_req_res: FileReqResHandler) -> (b:
        Self)
        ensures
            b.kademlia == kademlia,
            b.identify == identify,
            b.file_req_res == file_req_res,
    {
        MarketBehaviour { kademlia, identify, file_req_res }
    }

    pub fn kademlia(&self) -> (r: &KadHandler)
        ensures
            r == &self.kademlia,
    {
        &self.kademlia
    }

    pub fn kademlia_mut(&mut self) -> (r: &mut KadHandler)
        ensures
            *r == old(self).kademlia,
            final(self).kademlia == *final(r),
            final(self).identify == old(self).identify,
            final(self).file_req_res == old(self).file_req_res,
    {
        &mut self.kademlia
    }

    pub fn identify(&self) -> (r: &Identify)
        ensures
            r == &self.identify,
    {
        &self.identify
    }

    pub fn identify_mut(&mut self) -> (r: &mut Identify)
        ensures
            *r == old(self).identify,
            final(self).identify == *final(r),
            final(self).kademlia == old(self).kademlia,
            final(self).file_req_res == old(self).file_req_res,
    {
        &mut self.identify
    }

    /// Routes one sub-protocol event to the sub-protocol that owns it.
    ///
    /// Routing events resolve their query id in the routing adapter's
    /// pending table, and the resolution that the adapter hands back — its
    /// response fixed in the adapter's own contract — is delivered here.
    /// Lookup events go to the lookup handler: a terminal event's
    /// resolution is delivered the same way, and the reply to an inbound
    /// request on a registered key is returned for the loop to send.
    /// Identification events are explicitly ignored. Each event touches
    /// its own protocol's state and no other's.
    pub fn handle_event(
        &mut self,
        event: MarketBehaviourEvent,
        market_map: &MarketMap,
    ) -> (reply: Option<SupplierInfo>)
        requires
            market_map.wf(),
        ensures
            final(self).identify == old(self).identify,
            final(self).kademlia.store_view() == old(self).kademlia.store_view(),
            match event {
                MarketBehaviourEvent::Kad(kad_event) => {
                    &&& final(self).kademlia.pending_view()
                        == old(self).kademlia.pending_view().remove(kad_event_query_id(kad_event))
                    &&& final(self).file_req_res == old(self).file_req_res
                    &&& reply is None
                },
                MarketBehaviourEvent::Identify(_) => *final(self) == *old(self) && reply is None,
                MarketBehaviourEvent::FileReqRes(lookup_event) => {
                    &&& final(self).kademlia == old(self).kademlia
                    &&& final(self).file_req_res.pending_view() == pending_after_event(
                        old(self).file_req_res.pending_view(),
                        lookup_event,
                    )
                    &&& (match lookup_event {
                        FileReqResEvent::InboundRequest { file_hash, .. } => {
                            &&& (reply matches Some(info) ==> market_map@.contains_key(file_hash@)
                                && info == market_map@[file_hash@])
                            &&& (market_map@.contains_key(file_hash@) ==> (reply matches Some(info)
                                && info == market_map@[file_hash@]))
                        },
                        _ => reply is None,
                    })
                },
            },
    {
        match event {
            MarketBehaviourEvent::Kad(kad_event) => {
                let resolution = match kad_event {
                    KadEvent::ClosestPeersFinished { query_id, key, peers } => {
                        self.kademlia.complete_closest_peers(query_id, key, peers)
                    },
                    KadEvent::RegisterFinished { query_id, key } => {
                        self.kademlia.complete_register(query_id, key)
                    },
                    KadEvent::ProvidersFinished { query_id, key, providers } => {
                        self.kademlia.complete_get_providers(query_id, key, providers)
                    },
                    KadEvent::QueryFailed { query_id } => self.kademlia.fail_query(query_id),
                };
                match resolution {
                    Some(resolution) => {
                        // A caller that went away makes this a no-op.
                        let _ = deliver(resolution);
                    },
                    None => {},
                }
                None
            },
            MarketBehaviourEvent::Identify(identify_event) => {
                match identify_event {
                    IdentifyEvent::Received { peer: _ } => {},
                    IdentifyEvent::Sent { peer: _ } => {},
                    IdentifyEvent::Error { peer: _ } => {},
                }
                None
            },
            MarketBehaviourEvent::FileReqRes(lookup_event) => {
                match self.file_req_res.handle_event(lookup_event, market_map) {
                    LookupEffect::Reply(reply) => reply,
                    LookupEffect::Resolve(resolution) => {
                        let _ = deliver(resolution);
                        None
                    },
                    LookupEffect::Nothing => None,
                }
            },
        }
    }
}

} // verus!
