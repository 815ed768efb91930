//! The event loop's own state and its command dispatch.
//!
//! One logical owner — the loop — holds the composed behaviour, the market
//! map and the connection bookkeeping; callers never touch any of it
//! directly. Commands arrive through the bridge, are answered synchronously
//! out of loop-owned state where possible, and otherwise turn into an
//! engine operation whose handler is parked until the engine's terminal
//! event comes back through the behaviour dispatch.

use vstd::prelude::*;

use crate::behaviour::{MarketBehaviour, MarketBehaviourEvent};
use crate::data::{FileHash, Multiaddr, PeerId, SupplierInfo};
use crate::market_map::MarketMap;
use crate::req_res::{
    response_matches_request, FileReqResRequestData, KadRequestData, RequestData, RequestHandler,
    ResponseData,
};

verus! {

/// Whether `connected` lists a peer with identity bytes `p`.
pub open spec fn spec_is_connected(connected: Seq<PeerId>, p: Seq<u8>) -> bool {
    exists|i: int| 0 <= i < connected.len() && connected[i]@ == p
}

/// An operation only the routing engine or the transport can perform. The
/// loop hands these out; once the engine assigns the correlation id, the
/// parked handler goes into the owning protocol's pending table.
pub enum EngineOp {
    /// Synchronous routing-table lookup; answered without a pending entry.
    ClosestLocalPeers { key: Vec<u8> },
    ClosestPeers { key: Vec<u8> },
    StartProviding { key: Vec<u8> },
    GetProviders { key: Vec<u8> },
    SendLookupRequest { peer_id: PeerId, file_hash: FileHash },
}

/// What became of one submitted command.
pub enum CommandDisposition {
    /// Answered synchronously out of loop-owned state; the reply has been
    /// delivered (`delivered` reports whether the caller still listened).
    Done { delivered: bool },
    /// The engine must run `op`; `request_handler` waits for its outcome.
    Issue { op: EngineOp, request_handler: RequestHandler },
}

/// Clones a listener list; listener values carry over unchanged.
fn clone_multiaddrs(v: &Vec<Multiaddr>) -> (r: Vec<Multiaddr>)
    ensures
        r@ == v@,
{
    let mut out: Vec<Multiaddr> = Vec::new();
    let mut i: usize = 0;
    while i < v.len()
        invariant
            i <= v.len(),
            out@ == v@.subrange(0, i as int),
        decreases v.len() - i,
    {
        out.push(v[i].clone());
        i = i + 1;
        proof {
            assert(out@ =~= v@.subrange(0, i as int));
        }
    }
    proof {
        assert(v@.subrange(0, v@.len() as int) =~= v@);
    }
    out
}

/// Clones a peer list; the identities carry over byte for byte.
fn clone_peers(v: &Vec<PeerId>) -> (r: Vec<PeerId>)
    ensures
        r.deep_view() == v.deep_view(),
{
    let mut out: Vec<PeerId> = Vec::new();
    let mut i: usize = 0;
    while i < v.len()
        invariant
            i <= v.len(),
            out@.len() == i,
            forall|j: int| 0 <= j < i ==> out@[j]@ == v@[j]@,
        decreases v.len() - i,
    {
        out.push(v[i].clone());
        i = i + 1;
    }
    proof {
        assert forall|j: int| 0 <= j < out.deep_view().len() implies out.deep_view()[j]
            == v.deep_view()[j] by {
            assert(out@[j]@ == v@[j]@);
        }
        assert(out.deep_view() =~= v.deep_view());
    }
    out
}

/// Everything the event loop owns: connection bookkeeping, the market map,
/// and the composed protocol state. No global state exists; independent
/// node instances share nothing.
pub struct NodeState {
    /// This node's own identity, as the transport minted it.
    pub local_peer: PeerId,
    /// The addresses this node listens on, from its configuration.
    pub listeners: Vec<Multiaddr>,
    /// Identities of the peers currently connected.
    pub connected: Vec<PeerId>,
    /// The supplier records this node holds, keyed by content key.
    pub market_map: MarketMap,
    /// The composed sub-protocol dispatch state.
    pub behaviour: MarketBehaviour,
}

impl NodeState {
    /// Loop state for a freshly configured node: nothing connected, nothing
    /// registered, nothing pending.
    pub fn new(local_peer: PeerId, listeners: Vec<Multiaddr>, behaviour: MarketBehaviour) -> (s:
        Self)
        ensures
            s.local_peer == local_peer,
            s.listeners == listeners,
            s.connected@.len() == 0,
            s.market_map.wf(),
            s.market_map@ == Map::<Seq<u8>, SupplierInfo>::empty(),
            s.behaviour == behaviour,
    {
        NodeState {
            local_peer,
            listeners,
            connected: Vec::new(),
            market_map: MarketMap::new(),
            behaviour,
        }
    }

    /// Records a settled connection. A peer already listed stays listed
    /// once.
    pub fn on_peer_connected(&mut self, peer: PeerId)
        ensures
            final(self).local_peer == old(self).local_peer,
            final(self).listeners == old(self).listeners,
            final(self).market_map == old(self).market_map,
            final(self).behaviour == old(self).behaviour,
            final(self).connected@ == if spec_is_connected(old(self).connected@, peer@) {
                old(self).connected@
            } else {
                old(self).connected@.push(peer)
            },
    {
        let n = self.connected.len();
        let mut i: usize = 0;
        while i < n
            invariant
                n == self.connected@.len(),
                i <= n,
                self == old(self),
                forall|j: int| 0 <= j < i ==> self.connected@[j]@ != peer@,
            decreases n - i,
        {
            if self.connected[i].0 == peer.0 {
                proof {
                    assert(self.connected@[i as int]@ =~= peer@);
                }
                return;
            }
            i = i + 1;
        }
        self.connected.push(peer);
    }

    /// The reply to a listener enumeration: exactly the configured listen
    /// addresses, one entry each.
    pub fn answer_get_all_listeners(&self) -> (r: ResponseData)
        ensures
            r matches ResponseData::AllListeners { listeners } && listeners@ == self.listeners@,
            response_matches_request(RequestData::GetAllListeners, r),
    {
        ResponseData::AllListeners { listeners: clone_multiaddrs(&self.listeners) }
    }

    /// The reply to a connected-peer enumeration: exactly the identities of
    /// the peers whose connections have settled.
    pub fn answer_get_connected_peers(&self) -> (r: ResponseData)
        ensures
            r matches ResponseData::ConnectedPeers { connected_peers } && connected_peers.deep_view()
                == self.connected.deep_view(),
            response_matches_request(RequestData::GetConnectedPeers, r),
    {
        ResponseData::ConnectedPeers { connected_peers: clone_peers(&self.connected) }
    }

    /// The reply to a directed connectivity check: `true` exactly when the
    /// identity is among the connected peers.
    pub fn answer_is_connected_to(&self, peer: &PeerId) -> (r: ResponseData)
        ensures
            r == (ResponseData::IsConnectedTo {
                is_connected: spec_is_connected(self.connected@, peer@),
            }),
            response_matches_request(RequestData::IsConnectedTo(*peer), r),
    {
        let n = self.connected.len();
        let mut i: usize = 0;
        while i < n
            invariant
                n == self.connected@.len(),
                i <= n,
                forall|j: int| 0 <= j < i ==> self.connected@[j]@ != peer@,
            decreases n - i,
        {
            if self.connected[i].0 == peer.0 {
                proof {
                    assert(self.connected@[i as int]@ =~= peer@);
                }
                return ResponseData::IsConnectedTo { is_connected: true };
            }
            i = i + 1;
        }
        ResponseData::IsConnectedTo { is_connected: false }
    }

    /// Dispatches one submitted command.
    ///
    /// Enumerations and connectivity checks are answered at once out of
    /// loop-owned state and delivered through the caller's handler.
    /// Routing and lookup operations cannot finish here: the loop gets the
    /// operation to run against the engine back, along with the caller's
    /// handler to park once the engine assigns the correlation id.
    /// Registering a file also takes its local effect immediately: the
    /// record enters the market map — so inbound lookups for the key are
    /// answerable from now on — and this node is recorded as the key's
    /// provider in the store backing the routing engine.
    pub fn handle_command(&mut self, command: RequestData, request_handler: RequestHandler) -> (disp:
        CommandDisposition)
        requires
            old(self).market_map.wf(),
        ensures
            final(self).local_peer == old(self).local_peer,
            final(self).listeners == old(self).listeners,
            final(self).connected == old(self).connected,
            final(self).market_map.wf(),
            final(self).behaviour.identify == old(self).behaviour.identify,
            final(self).behaviour.file_req_res == old(self).behaviour.file_req_res,
            final(self).behaviour.kademlia.pending_view()
                == old(self).behaviour.kademlia.pending_view(),
            match command {
                RequestData::GetAllListeners => *final(self) == *old(self) && (disp matches
                    CommandDisposition::Done { .. }),
                RequestData::GetConnectedPeers => *final(self) == *old(self) && (disp matches
                    CommandDisposition::Done { .. }),
                RequestData::IsConnectedTo(_) => *final(self) == *old(self) && (disp matches
                    CommandDisposition::Done { .. }),
                RequestData::KadRequest(kad_request) => match kad_request {
                    KadRequestData::ClosestLocalPeers { key } => *final(self) == *old(self) && (disp
                        matches CommandDisposition::Issue {
                            op: EngineOp::ClosestLocalPeers { key: op_key },
                            request_handler: parked,
                        } && op_key == key && parked == request_handler),
                    KadRequestData::ClosestPeers { key } => *final(self) == *old(self) && (disp
                        matches CommandDisposition::Issue {
                            op: EngineOp::ClosestPeers { key: op_key },
                            request_handler: parked,
                        } && op_key == key && parked == request_handler),
                    KadRequestData::RegisterFile { file_metadata } => {
                        &&& final(self).market_map@ == old(self).market_map@.insert(
                            file_metadata.file_hash@,
                            file_metadata.supplier_info,
                        )
                        &&& (forall|k: Seq<u8>, p: Seq<u8>|
                            final(self).behaviour.kademlia.store_view().has_provider(k, p) <==> (old(
                                self,
                            ).behaviour.kademlia.store_view().has_provider(k, p) || (k
                                == file_metadata.file_hash@ && p == old(self).local_peer@)))
                        &&& (disp matches CommandDisposition::Issue {
                            op: EngineOp::StartProviding { key: op_key },
                            request_handler: parked,
                        } && op_key@ == file_metadata.file_hash@ && parked == request_handler)
                    },
                    KadRequestData::GetProviders { key } => *final(self) == *old(self) && (disp
                        matches CommandDisposition::Issue {
                            op: EngineOp::GetProviders { key: op_key },
                            request_handler: parked,
                        } && op_key == key && parked == request_handler),
                },
                RequestData::ReqResRequest(lookup_request) => *final(self) == *old(self) && (disp
                    matches CommandDisposition::Issue {
                        op: EngineOp::SendLookupRequest { peer_id, file_hash },
                        request_handler: parked,
                    } && lookup_request == (FileReqResRequestData::GetSupplierInfo {
                        file_hash,
                        peer_id,
                    }) && parked == request_handler),
            },
    {
        match command {
            RequestData::GetAllListeners => {
                let response = self.answer_get_all_listeners();
                let delivered = request_handler.respond(Ok(response));
                CommandDisposition::Done { delivered }
            },
            RequestData::GetConnectedPeers => {
                let response = self.answer_get_connected_peers();
                let delivered = request_handler.respond(Ok(response));
                CommandDisposition::Done { delivered }
            },
            RequestData::IsConnectedTo(peer) => {
                let response = self.answer_is_connected_to(&peer);
                let delivered = request_handler.respond(Ok(response));
                CommandDisposition::Done { delivered }
            },
            RequestData::KadRequest(kad_request) => match kad_request {
                KadRequestData::ClosestLocalPeers { key } => CommandDisposition::Issue {
                    op: EngineOp::ClosestLocalPeers { key },
                    request_handler,
                },
                KadRequestData::ClosestPeers { key } => CommandDisposition::Issue {
                    op: EngineOp::ClosestPeers { key },
                    request_handler,
                },
                KadRequestData::RegisterFile { file_metadata } => {
                    let crate::data::FileMetadata { file_hash, supplier_info } = file_metadata;
                    let op_key = file_hash.clone();
                    self.behaviour.kademlia.record_local_provider(&file_hash, &self.local_peer);
                    self.market_map.insert(file_hash, supplier_info);
                    CommandDisposition::Issue {
                        op: EngineOp::StartProviding { key: op_key.0 },
                        request_handler,
                    }
                },
                KadRequestData::GetProviders { key } => CommandDisposition::Issue {
                    op: EngineOp::GetProviders { key },
                    request_handler,
                },
            },
            RequestData::ReqResRequest(lookup_request) => match lookup_request {
                FileReqResRequestData::GetSupplierInfo { file_hash, peer_id } =>
                    CommandDisposition::Issue {
                        op: EngineOp::SendLookupRequest { peer_id, file_hash },
                        request_handler,
                    },
            },
        }
    }

    /// Routes one network event through the composed behaviour; see
    /// `MarketBehaviour::handle_event`. The loop sends the returned record,
    /// if any, back over the transport channel the inbound request arrived
    /// on.
    pub fn handle_behaviour_event(&mut self, event: MarketBehaviourEvent) -> (reply: Option<
        SupplierInfo,
    >)
        requires
            old(self).market_map.wf(),
        ensures
            final(self).local_peer == old(self).local_peer,
            final(self).listeners == old(self).listeners,
            final(self).connected == old(self).connected,
            final(self).market_map == old(self).market_map,
            final(self).market_map.wf(),
            final(self).behaviour.identify == old(self).behaviour.identify,
            final(self).behaviour.kademlia.store_view()
                == old(self).behaviour.kademlia.store_view(),
            match event {
                MarketBehaviourEvent::Kad(kad_event) => {
                    &&& final(self).behaviour.kademlia.pending_view()
                        == old(self).behaviour.kademlia.pending_view().remove(
                        crate::behaviour::kad_event_query_id(kad_event),
                    )
                    &&& final(self).behaviour.file_req_res == old(self).behaviour.file_req_res
                    &&& reply is None
                },
                MarketBehaviourEvent::Identify(_) => final(self).behaviour == old(self).behaviour
                    && reply is None,
                MarketBehaviourEvent::FileReqRes(lookup_event) => {
                    &&& final(self).behaviour.kademlia == old(self).behaviour.kademlia
                    &&& final(self).behaviour.file_req_res.pending_view()
                        == crate::file_req_res::pending_after_event(
                        old(self).behaviour.file_req_res.pending_view(),
                        lookup_event,
                    )
                    &&& (match lookup_event {
                        crate::file_req_res::FileReqResEvent::InboundRequest { file_hash, .. } => {
                            &&& (reply matches Some(info) ==> old(self).market_map@.contains_key(
                                file_hash@,
                            ) && info == old(self).market_map@[file_hash@])
                            &&& (old(self).market_map@.contains_key(file_hash@) ==> (reply matches
                                Some(info) && info == old(self).market_map@[file_hash@]))
                        },
                        _ => reply is None,
                    })
                },
            },
    {
        self.behaviour.handle_event(event, &self.market_map)
    }
}

} // verus!
