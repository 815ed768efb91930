//! The service façade: address parsing, request validation, and the
//! failure paths a caller sees.

use market_dht::bridge::command_channel;
use market_dht::data::{Ipv4, PeerId, SupplierInfo};
use market_dht::ipv4::parse_ipv4;
use market_dht::req_res::{FileReqResResponseData, KadResponseData, ResponseData};
use market_dht::service::{
    shape_providers_reply, shape_register_reply, shape_supplier_reply, CheckHoldersRequest,
    MarketService, RegisterFileRequest, ServiceStatus, User,
};

fn some_user(ip: &str, port: i32) -> User {
    User {
        id: "client-1".to_string(),
        name: "alice".to_string(),
        ip: ip.to_string(),
        port,
        price: 5,
    }
}

#[test]
fn test_parse_ipv4_accepts_valid_addresses() {
    assert_eq!(Some(Ipv4 { a: 127, b: 0, c: 0, d: 1 }), parse_ipv4("127.0.0.1"));
    assert_eq!(Some(Ipv4 { a: 0, b: 0, c: 0, d: 0 }), parse_ipv4("0.0.0.0"));
    assert_eq!(Some(Ipv4 { a: 255, b: 255, c: 255, d: 255 }), parse_ipv4("255.255.255.255"));
    assert_eq!(Some(Ipv4 { a: 1, b: 22, c: 233, d: 9 }), parse_ipv4("1.22.233.9"));
}

#[test]
fn test_parse_ipv4_rejects_invalid_addresses() {
    assert_eq!(None, parse_ipv4(""));
    assert_eq!(None, parse_ipv4("1.2.3"));
    assert_eq!(None, parse_ipv4("1.2.3.4.5"));
    assert_eq!(None, parse_ipv4("256.0.0.1"));
    assert_eq!(None, parse_ipv4("01.2.3.4"));
    assert_eq!(None, parse_ipv4("1..2.3"));
    assert_eq!(None, parse_ipv4("1.2.3."));
    assert_eq!(None, parse_ipv4(".1.2.3"));
    assert_eq!(None, parse_ipv4("1.2.3.a"));
    assert_eq!(None, parse_ipv4("1234.5.6.7"));
}

#[test]
fn test_register_missing_user_is_invalid_argument() {
    let (client, _outlet) = command_channel(PeerId(b"peer1".to_vec()));
    let service = MarketService::new(client);
    let result = service.register_file(RegisterFileRequest {
        file_hash: b"file".to_vec(),
        user: None,
    });
    assert_eq!(Err(ServiceStatus::MissingUser), result);
}

#[test]
fn test_register_bad_ip_is_rejected() {
    let (client, _outlet) = command_channel(PeerId(b"peer1".to_vec()));
    let service = MarketService::new(client);
    let result = service.register_file(RegisterFileRequest {
        file_hash: b"file".to_vec(),
        user: Some(some_user("999.0.0.1", 4444)),
    });
    assert_eq!(Err(ServiceStatus::BadIp), result);
}

#[test]
fn test_register_bad_port_is_rejected() {
    let (client, _outlet) = command_channel(PeerId(b"peer1".to_vec()));
    let service = MarketService::new(client);
    let result = service.register_file(RegisterFileRequest {
        file_hash: b"file".to_vec(),
        user: Some(some_user("127.0.0.1", 70000)),
    });
    assert_eq!(Err(ServiceStatus::BadPort), result);
    let result = service.register_file(RegisterFileRequest {
        file_hash: b"file".to_vec(),
        user: Some(some_user("127.0.0.1", -1)),
    });
    assert_eq!(Err(ServiceStatus::BadPort), result);
}

#[test]
fn test_register_with_loop_gone_is_unavailable() {
    let (client, outlet) = command_channel(PeerId(b"peer1".to_vec()));
    drop(outlet);
    let service = MarketService::new(client);
    let result = service.register_file(RegisterFileRequest {
        file_hash: b"file".to_vec(),
        user: Some(some_user("127.0.0.1", 4444)),
    });
    assert_eq!(Err(ServiceStatus::Unavailable), result);
}

#[test]
fn test_check_holders_with_loop_gone_is_unavailable() {
    let (client, outlet) = command_channel(PeerId(b"peer1".to_vec()));
    drop(outlet);
    let service = MarketService::new(client);
    let result = service.check_holders(CheckHoldersRequest { file_hash: b"file".to_vec() });
    assert!(matches!(result, Err(ServiceStatus::Unavailable)));
}

#[test]
fn test_validated_metadata_carries_the_user_terms() {
    let metadata = market_dht::service::validate_register_file(RegisterFileRequest {
        file_hash: b"file".to_vec(),
        user: Some(some_user("10.20.30.40", 4444)),
    })
    .unwrap();
    assert_eq!(b"file".to_vec(), metadata.file_hash.0);
    assert_eq!(Ipv4 { a: 10, b: 20, c: 30, d: 40 }, metadata.supplier_info.ip);
    assert_eq!(4444, metadata.supplier_info.port);
    assert_eq!(5, metadata.supplier_info.price);
    assert_eq!("alice", metadata.supplier_info.username);
}

#[test]
fn test_shape_register_reply_covers_every_outcome() {
    let acknowledged = Ok(ResponseData::KadResponse(KadResponseData::RegisterFile {
        key: b"file".to_vec(),
    }));
    assert_eq!(Ok(()), shape_register_reply(acknowledged));
    let mismatched = Ok(ResponseData::IsConnectedTo { is_connected: true });
    assert_eq!(Err(ServiceStatus::UnexpectedResponse), shape_register_reply(mismatched));
    let failed = Err(market_dht::MarketError::NetworkOutboundFailure);
    assert_eq!(Err(ServiceStatus::OperationFailed), shape_register_reply(failed));
}

#[test]
fn test_shape_providers_reply_hands_the_set_through() {
    let found = Ok(ResponseData::KadResponse(KadResponseData::GetProviders {
        key: b"file".to_vec(),
        providers: vec![PeerId(b"peer1".to_vec())],
    }));
    let providers = shape_providers_reply(found).unwrap();
    assert_eq!(1, providers.len());
    assert_eq!(b"peer1".to_vec(), providers[0].0);
    let failed = Err(market_dht::MarketError::NetworkOutboundFailure);
    assert_eq!(Err(ServiceStatus::OperationFailed), shape_providers_reply(failed).map(|_| ()));
}

#[test]
fn test_shape_supplier_reply_builds_exactly_one_holder() {
    let answered = Ok(ResponseData::ReqResResponse(FileReqResResponseData::GetSupplierInfo {
        supplier_info: SupplierInfo {
            ip: Ipv4 { a: 10, b: 0, c: 0, d: 2 },
            port: 8080,
            price: 7,
            username: "bob".to_string(),
        },
    }));
    let response = shape_supplier_reply(PeerId(b"peer2".to_vec()), answered).unwrap();
    assert_eq!(1, response.holders.len());
    assert_eq!(b"peer2".to_vec(), response.holders[0].peer.0);
    assert_eq!(Ipv4 { a: 10, b: 0, c: 0, d: 2 }, response.holders[0].ip);
    assert_eq!(8080, response.holders[0].port);
    assert_eq!(7, response.holders[0].price);
    assert_eq!("bob", response.holders[0].username);
    let mismatched = Ok(ResponseData::IsConnectedTo { is_connected: false });
    let shaped = shape_supplier_reply(PeerId(b"peer2".to_vec()), mismatched);
    assert_eq!(Err(ServiceStatus::UnexpectedResponse), shaped.map(|_| ()));
}
