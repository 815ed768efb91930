//! The correlation discipline: exactly-once delivery, unknown-id
//! resilience, the partial-answer policy of the lookup protocol, and the
//! registration round trip at the store.

use market_dht::behaviour::{
    Identify, IdentifyEvent, KadEvent, MarketBehaviour, MarketBehaviourEvent,
};
use market_dht::data::{FileHash, FileMetadata, Ipv4, Multiaddr, PeerId, SupplierInfo};
use market_dht::file_req_res::{FileReqResEvent, FileReqResHandler, LookupEffect};
use market_dht::kad::KadHandler;
use market_dht::market_map::MarketMap;
use market_dht::node::{CommandDisposition, EngineOp, NodeState};
use market_dht::req_res::{
    deliver, FileReqResRequestData, KadRequestData, KadResponseData, RequestData, RequestHandler,
    ResponseData,
};
use market_dht::MarketError;

fn some_supplier(name: &str) -> SupplierInfo {
    SupplierInfo {
        ip: Ipv4 { a: 127, b: 0, c: 0, d: 1 },
        port: 4444,
        price: 3,
        username: name.to_string(),
    }
}

fn fresh_node(name: &str) -> NodeState {
    NodeState::new(
        PeerId(name.as_bytes().to_vec()),
        vec![Multiaddr("/ip4/127.0.0.1/tcp/4444".to_string())],
        MarketBehaviour::new(KadHandler::new(), Identify::new(), FileReqResHandler::new()),
    )
}

#[test]
fn test_reply_channel_delivers_exactly_once() {
    let (request_handler, response_handler) = RequestHandler::new();
    let delivered = request_handler.respond(Ok(ResponseData::IsConnectedTo {
        is_connected: true,
    }));
    assert!(delivered);
    let response = response_handler.get_response_data();
    assert!(matches!(response, Ok(ResponseData::IsConnectedTo { is_connected: true })));
    // Both halves are consumed by the exchange: neither can be used again.
}

#[test]
fn test_delivery_to_dropped_caller_is_nonfatal() {
    let (request_handler, response_handler) = RequestHandler::new();
    drop(response_handler);
    let delivered = request_handler.respond(Err(MarketError::NetworkOutboundFailure));
    assert!(!delivered);
}

#[test]
fn test_waiting_on_dropped_loop_reports_response_lost() {
    let (request_handler, response_handler) = RequestHandler::new();
    drop(request_handler);
    let response = response_handler.get_response_data();
    assert!(matches!(response, Err(MarketError::ResponseLost)));
}

#[test]
fn test_unknown_id_event_is_a_no_op() {
    let mut handler = FileReqResHandler::new();
    let market_map = MarketMap::new();
    // No request with id 77 was ever issued; the terminal event must be
    // swallowed without a panic.
    let effect = handler.handle_event(
        FileReqResEvent::OutboundFailure { request_id: 77 },
        &market_map,
    );
    assert!(matches!(effect, LookupEffect::Nothing));
    // A later, genuine exchange still resolves normally.
    let (request_handler, response_handler) = RequestHandler::new();
    let _ = handler.handle_request(
        FileReqResRequestData::GetSupplierInfo {
            file_hash: FileHash(b"abc".to_vec()),
            peer_id: PeerId(b"peer2".to_vec()),
        },
        5,
        request_handler,
    );
    let effect = handler.handle_event(
        FileReqResEvent::InboundResponse { request_id: 5, supplier_info: some_supplier("bob") },
        &market_map,
    );
    match effect {
        LookupEffect::Resolve(resolution) => assert!(deliver(resolution)),
        _ => panic!("a pending id must resolve"),
    }
    let response = response_handler.get_response_data().unwrap();
    assert!(matches!(response, ResponseData::ReqResResponse(_)));
}

#[test]
fn test_second_terminal_event_for_same_id_delivers_nothing() {
    let mut handler = FileReqResHandler::new();
    let market_map = MarketMap::new();
    let (request_handler, response_handler) = RequestHandler::new();
    let _ = handler.handle_request(
        FileReqResRequestData::GetSupplierInfo {
            file_hash: FileHash(b"abc".to_vec()),
            peer_id: PeerId(b"peer2".to_vec()),
        },
        9,
        request_handler,
    );
    let effect = handler.handle_event(
        FileReqResEvent::OutboundFailure { request_id: 9 },
        &market_map,
    );
    match effect {
        LookupEffect::Resolve(resolution) => assert!(deliver(resolution)),
        _ => panic!("a pending id must resolve"),
    }
    let response = response_handler.get_response_data();
    assert!(matches!(response, Err(MarketError::NetworkOutboundFailure)));
    // The same id again: the entry is gone, nothing is delivered, no panic.
    let effect = handler.handle_event(
        FileReqResEvent::InboundResponse { request_id: 9, supplier_info: some_supplier("bob") },
        &market_map,
    );
    assert!(matches!(effect, LookupEffect::Nothing));
}

#[test]
fn test_unregistered_key_gets_no_reply() {
    let mut handler = FileReqResHandler::new();
    let mut market_map = MarketMap::new();
    market_map.insert(FileHash(b"known".to_vec()), some_supplier("alice"));
    // The partial-answer policy: an inbound request for an unregistered key
    // produces no response message at all.
    let effect = handler.handle_event(
        FileReqResEvent::InboundRequest { request_id: 1, file_hash: FileHash(b"other".to_vec()) },
        &market_map,
    );
    assert!(matches!(effect, LookupEffect::Reply(None)));
    // A registered key is answered with exactly the stored record.
    let effect = handler.handle_event(
        FileReqResEvent::InboundRequest { request_id: 2, file_hash: FileHash(b"known".to_vec()) },
        &market_map,
    );
    match effect {
        LookupEffect::Reply(reply) => assert_eq!(Some(some_supplier("alice")), reply),
        _ => panic!("an inbound request yields a reply decision"),
    }
}

#[test]
fn test_registration_records_local_provider() {
    let mut node = fresh_node("peer1");
    let (request_handler, response_handler) = RequestHandler::new();
    let disp = node.handle_command(
        RequestData::KadRequest(KadRequestData::RegisterFile {
            file_metadata: FileMetadata {
                file_hash: FileHash(b"file".to_vec()),
                supplier_info: some_supplier("alice"),
            },
        }),
        request_handler,
    );
    let (op, request_handler) = match disp {
        CommandDisposition::Issue { op, request_handler } => (op, request_handler),
        CommandDisposition::Done { .. } => panic!("registration cannot finish locally"),
    };
    assert!(matches!(op, EngineOp::StartProviding { .. }));
    // The node's own identity is now recorded as a provider of the key.
    let providers = node.behaviour.kademlia.local_providers(&FileHash(b"file".to_vec()));
    assert_eq!(1, providers.len());
    assert_eq!(b"peer1".to_vec(), providers[0].0);
    // The market map answers lookups for the key from now on.
    let reply = node.handle_behaviour_event(MarketBehaviourEvent::FileReqRes(
        FileReqResEvent::InboundRequest { request_id: 3, file_hash: FileHash(b"file".to_vec()) },
    ));
    assert_eq!(Some(some_supplier("alice")), reply);
    // The engine assigns the query id; completion reaches the caller.
    node.behaviour.kademlia.issue(11, request_handler);
    let resolution = node.behaviour.kademlia.complete_register(11, b"file".to_vec()).unwrap();
    assert!(deliver(resolution));
    let response = response_handler.get_response_data().unwrap();
    assert!(matches!(
        response,
        ResponseData::KadResponse(KadResponseData::RegisterFile { .. })
    ));
}

#[test]
fn test_query_failure_is_delivered_as_error() {
    let mut node = fresh_node("peer1");
    let (request_handler, response_handler) = RequestHandler::new();
    node.behaviour.kademlia.issue(21, request_handler);
    let reply = node.handle_behaviour_event(MarketBehaviourEvent::Kad(KadEvent::QueryFailed {
        query_id: 21,
    }));
    assert!(reply.is_none());
    let response = response_handler.get_response_data();
    assert!(matches!(response, Err(MarketError::NetworkOutboundFailure)));
}

#[test]
fn test_get_providers_completion_delivers_engine_result() {
    let mut node = fresh_node("peer1");
    let (request_handler, response_handler) = RequestHandler::new();
    node.behaviour.kademlia.issue(31, request_handler);
    let reply = node.handle_behaviour_event(MarketBehaviourEvent::Kad(
        KadEvent::ProvidersFinished {
            query_id: 31,
            key: b"file".to_vec(),
            providers: vec![PeerId(b"peer1".to_vec())],
        },
    ));
    assert!(reply.is_none());
    let response = response_handler.get_response_data().unwrap();
    if let ResponseData::KadResponse(KadResponseData::GetProviders { key, providers }) = response {
        assert_eq!(b"file".to_vec(), key);
        assert_eq!(1, providers.len());
        assert_eq!(b"peer1".to_vec(), providers[0].0);
    } else {
        panic!("wrong response variant");
    }
}

#[test]
fn test_identify_events_are_ignored() {
    let mut node = fresh_node("peer1");
    let reply = node.handle_behaviour_event(MarketBehaviourEvent::Identify(
        IdentifyEvent::Received { peer: PeerId(b"peer2".to_vec()) },
    ));
    assert!(reply.is_none());
}

#[test]
fn test_market_map_overwrites_and_misses() {
    let mut market_map = MarketMap::new();
    assert!(market_map.get(&FileHash(b"k".to_vec())).is_none());
    market_map.insert(FileHash(b"k".to_vec()), some_supplier("alice"));
    market_map.insert(FileHash(b"k".to_vec()), some_supplier("bob"));
    assert_eq!(Some(&some_supplier("bob")), market_map.get(&FileHash(b"k".to_vec())));
    assert!(market_map.get(&FileHash(b"other".to_vec())).is_none());
}

#[test]
fn test_closest_peers_completion_delivers_peers() {
    let mut node = fresh_node("peer1");
    let (request_handler, response_handler) = RequestHandler::new();
    let disp = node.handle_command(
        RequestData::KadRequest(KadRequestData::ClosestPeers { key: b"file".to_vec() }),
        request_handler,
    );
    let request_handler = match disp {
        CommandDisposition::Issue { op: EngineOp::ClosestPeers { key }, request_handler } => {
            assert_eq!(b"file".to_vec(), key);
            request_handler
        }
        _ => panic!("a network query cannot finish locally"),
    };
    node.behaviour.kademlia.issue(41, request_handler);
    let _ = node.handle_behaviour_event(MarketBehaviourEvent::Kad(KadEvent::ClosestPeersFinished {
        query_id: 41,
        key: b"file".to_vec(),
        peers: vec![PeerId(b"peer2".to_vec()), PeerId(b"peer3".to_vec())],
    }));
    let response = response_handler.get_response_data().unwrap();
    if let ResponseData::KadResponse(KadResponseData::ClosestPeers { peers, .. }) = response {
        assert_eq!(2, peers.len());
    } else {
        panic!("wrong response variant");
    }
}

#[test]
fn test_closest_local_peers_is_answered_without_pending_entry() {
    let mut node = fresh_node("peer1");
    let (request_handler, response_handler) = RequestHandler::new();
    let disp = node.handle_command(
        RequestData::KadRequest(KadRequestData::ClosestLocalPeers { key: b"file".to_vec() }),
        request_handler,
    );
    let request_handler = match disp {
        CommandDisposition::Issue {
            op: EngineOp::ClosestLocalPeers { .. },
            request_handler,
        } => request_handler,
        _ => panic!("a routing-table lookup still needs the engine"),
    };
    let resolution = market_dht::kad::complete_closest_local_peers(request_handler, vec![PeerId(
        b"peer2".to_vec(),
    )]);
    assert!(deliver(resolution));
    let response = response_handler.get_response_data().unwrap();
    if let ResponseData::KadResponse(KadResponseData::ClosestLocalPeers { peers }) = response {
        assert_eq!(1, peers.len());
    } else {
        panic!("wrong response variant");
    }
}

#[test]
fn test_lookup_round_trip_through_the_loop() {
    let mut node = fresh_node("peer1");
    let (request_handler, response_handler) = RequestHandler::new();
    let disp = node.handle_command(
        RequestData::ReqResRequest(FileReqResRequestData::GetSupplierInfo {
            file_hash: FileHash(b"file".to_vec()),
            peer_id: PeerId(b"peer2".to_vec()),
        }),
        request_handler,
    );
    let (peer_id, file_hash, request_handler) = match disp {
        CommandDisposition::Issue {
            op: EngineOp::SendLookupRequest { peer_id, file_hash },
            request_handler,
        } => (peer_id, file_hash, request_handler),
        _ => panic!("a lookup request needs the transport"),
    };
    assert_eq!(b"peer2".to_vec(), peer_id.0);
    // The transport assigns the outbound-request id once the request went out.
    let target = node.behaviour.file_req_res.handle_request(
        FileReqResRequestData::GetSupplierInfo { file_hash, peer_id },
        51,
        request_handler,
    );
    assert_eq!(b"peer2".to_vec(), target.0 .0);
    assert_eq!(b"file".to_vec(), target.1 .0);
    let _ = node.handle_behaviour_event(MarketBehaviourEvent::FileReqRes(
        FileReqResEvent::InboundResponse { request_id: 51, supplier_info: some_supplier("bob") },
    ));
    let response = response_handler.get_response_data().unwrap();
    if let ResponseData::ReqResResponse(
        market_dht::req_res::FileReqResResponseData::GetSupplierInfo { supplier_info },
    ) = response
    {
        assert_eq!(some_supplier("bob"), supplier_info);
    } else {
        panic!("wrong response variant");
    }
}

#[test]
fn test_pending_table_insert_take_contains() {
    let mut table = market_dht::pending::PendingTable::new();
    assert!(!table.contains(7));
    let (request_handler, response_handler) = RequestHandler::new();
    table.insert(7, request_handler);
    assert!(table.contains(7));
    // Taking an id that was never issued touches nothing.
    assert!(table.take(8).is_none());
    assert!(table.contains(7));
    // The terminal event takes the parked handler out exactly once.
    let request_handler = table.take(7).unwrap();
    assert!(!table.contains(7));
    assert!(table.take(7).is_none());
    let delivered = request_handler.respond(Ok(ResponseData::IsConnectedTo {
        is_connected: false,
    }));
    assert!(delivered);
    assert!(matches!(
        response_handler.get_response_data(),
        Ok(ResponseData::IsConnectedTo { is_connected: false })
    ));
}
