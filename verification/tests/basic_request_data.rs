//! The caller-facing command round trips: submit through the bridge, let
//! the loop dispatch, and read the correlated reply.

use market_dht::behaviour::{Identify, MarketBehaviour};
use market_dht::bridge::command_channel;
use market_dht::data::{Multiaddr, PeerId};
use market_dht::file_req_res::FileReqResHandler;
use market_dht::kad::KadHandler;
use market_dht::node::NodeState;
use market_dht::req_res::ResponseData;

fn fresh_node(name: &str, listener: &str) -> NodeState {
    NodeState::new(
        PeerId(name.as_bytes().to_vec()),
        vec![Multiaddr(listener.to_string())],
        MarketBehaviour::new(KadHandler::new(), Identify::new(), FileReqResHandler::new()),
    )
}

fn client_for(name: &str) -> (market_dht::bridge::DhtClient, market_dht::bridge::CommandOutlet) {
    command_channel(PeerId(name.as_bytes().to_vec()))
}

#[test]
fn test_get_connected_peers() {
    let mut peer1 = fresh_node("peer1", "/ip4/127.0.0.1/tcp/1233");
    peer1.on_peer_connected(PeerId(b"peer2".to_vec()));

    let (client, mut outlet) = client_for("peer1");
    let response_handler = client.get_connected_peers().unwrap();
    let (command, request_handler) = outlet.next_command().unwrap();
    let _ = peer1.handle_command(command, request_handler);

    let response = response_handler.get_response_data().unwrap();
    if let ResponseData::ConnectedPeers { connected_peers } = response {
        assert_eq!(1, connected_peers.len());
        assert_eq!(b"peer2".to_vec(), connected_peers[0].0);
    } else {
        panic!("Didn't get the correct response!")
    }
}

#[test]
fn test_get_all_listeners() {
    let mut peer1 = fresh_node("peer1", "/ip4/127.0.0.1/tcp/1235");

    let (client, mut outlet) = client_for("peer1");
    let response_handler = client.get_all_listeners().unwrap();
    let (command, request_handler) = outlet.next_command().unwrap();
    let _ = peer1.handle_command(command, request_handler);

    let response = response_handler.get_response_data().unwrap();
    if let ResponseData::AllListeners { listeners } = response {
        assert_eq!(1, listeners.len());
        assert_eq!("/ip4/127.0.0.1/tcp/1235", listeners[0].0);
    } else {
        panic!("Listeners amount not correct");
    }
}

#[test]
fn test_is_connected_to() {
    let mut peer1 = fresh_node("peer1", "/ip4/127.0.0.1/tcp/1236");
    peer1.on_peer_connected(PeerId(b"peer2".to_vec()));

    let (client, mut outlet) = client_for("peer1");
    let response_handler = client.is_connected_to(PeerId(b"peer2".to_vec())).unwrap();
    let (command, request_handler) = outlet.next_command().unwrap();
    let _ = peer1.handle_command(command, request_handler);

    let response = response_handler.get_response_data().unwrap();
    if let ResponseData::IsConnectedTo { is_connected } = response {
        assert_eq!(true, is_connected);
    } else {
        panic!("Isn't connected to peer 2")
    }

    let response_handler = client.is_connected_to(PeerId(b"stranger".to_vec())).unwrap();
    let (command, request_handler) = outlet.next_command().unwrap();
    let _ = peer1.handle_command(command, request_handler);
    let response = response_handler.get_response_data().unwrap();
    assert!(matches!(response, ResponseData::IsConnectedTo { is_connected: false }));
}

#[test]
fn test_connecting_twice_lists_once() {
    let mut peer1 = fresh_node("peer1", "/ip4/127.0.0.1/tcp/1237");
    peer1.on_peer_connected(PeerId(b"peer2".to_vec()));
    peer1.on_peer_connected(PeerId(b"peer2".to_vec()));

    let (client, mut outlet) = client_for("peer1");
    let response_handler = client.get_connected_peers().unwrap();
    let (command, request_handler) = outlet.next_command().unwrap();
    let _ = peer1.handle_command(command, request_handler);

    let response = response_handler.get_response_data().unwrap();
    if let ResponseData::ConnectedPeers { connected_peers } = response {
        assert_eq!(1, connected_peers.len());
    } else {
        panic!("Didn't get the correct response!")
    }
}

#[test]
fn test_submission_after_loop_gone_fails() {
    let (client, outlet) = client_for("peer1");
    assert_eq!(b"peer1".to_vec(), client.id().0);
    drop(outlet);
    let result = client.get_all_listeners();
    assert!(matches!(result, Err(market_dht::MarketError::BridgeClosed)));
}
