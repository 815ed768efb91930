//! The marketplace service: the command vocabulary as the external façade
//! uses it. Clients register the files they supply and ask who holds a
//! given file; the service validates each request, turns it into commands
//! against a node's bridge, and shapes the replies.
//!
//! The wire plumbing that carries these requests to external clients is an
//! outside collaborator; it hands the service plain values. Content-hash
//! canonicalization also happens out there: the key bytes arrive canonical.

use vstd::prelude::*;

use crate::bridge::DhtClient;
use crate::data::{FileHash, FileMetadata, Ipv4, PeerId, SupplierInfo};
use crate::ipv4::{parse_ipv4, spec_parse_ipv4, valid_ipv4_text};
use crate::req_res::{
    FileReqResRequestData, FileReqResResponseData, KadResponseData, RequestData, Response,
    ResponseData,
};

verus! {

/// A marketplace client, as external requests describe one: its identity
/// and name, and the address, port and per-megabyte price it supplies
/// files at. The address arrives as dotted-decimal text and is validated
/// here.
#[derive(Debug, PartialEq, Eq)]
pub struct User {
    pub id: String,
    pub name: String,
    pub ip: String,
    pub port: i32,
    pub price: i64,
}

/// An external request to register a file this client supplies.
#[derive(Debug, PartialEq, Eq)]
pub struct RegisterFileRequest {
    pub file_hash: Vec<u8>,
    pub user: Option<User>,
}

/// An external request asking who holds a file.
#[derive(Debug, PartialEq, Eq)]
pub struct CheckHoldersRequest {
    pub file_hash: Vec<u8>,
}

/// A known holder of a file: the supplying peer's identity and its terms.
#[derive(Debug, PartialEq, Eq)]
pub struct Holder {
    pub peer: PeerId,
    pub ip: Ipv4,
    pub port: u16,
    pub price: i64,
    pub username: String,
}

/// The holders found for a file.
#[derive(Debug, PartialEq, Eq)]
pub struct HoldersResponse {
    pub holders: Vec<Holder>,
}

/// The status a service call fails with.
#[derive(Debug, Clone, Copy, PartialEq, Eq, Structural)]
pub enum ServiceStatus {
    /// The user field is required for this request.
    MissingUser,
    /// The user's address is not valid dotted-decimal text.
    BadIp,
    /// The user's port does not fit a transport port.
    BadPort,
    /// The node's event loop is gone; nothing can be submitted.
    Unavailable,
    /// The network operation failed or timed out.
    OperationFailed,
    /// The reply did not pair with the request; defensive, never fatal.
    UnexpectedResponse,
}

/// What a registration request is rejected with, if anything: a missing
/// user dominates, then the address, then the port.
pub open spec fn register_request_error(request: RegisterFileRequest) -> Option<ServiceStatus> {
    match request.user {
        Option::None => Some(ServiceStatus::MissingUser),
        Option::Some(user) => if !valid_ipv4_text(user.ip@) {
            Some(ServiceStatus::BadIp)
        } else if user.port < 0 || user.port > 65535 {
            Some(ServiceStatus::BadPort)
        } else {
            Option::<ServiceStatus>::None
        },
    }
}

/// Validates a registration request and shapes it into the metadata record
/// the node registers: the key bytes as the content key, and the user's
/// address, port, price and name as the supplier record.
pub fn validate_register_file(request: RegisterFileRequest) -> (r: Result<
    FileMetadata,
    ServiceStatus,
>)
    ensures
        match r {
            Ok(metadata) => {
                &&& register_request_error(request) is None
                &&& (request.user matches Some(user) && metadata.file_hash@ == request.file_hash@
                    && metadata.supplier_info.ip == spec_parse_ipv4(user.ip@)
                    && metadata.supplier_info.port == user.port as u16
                    && metadata.supplier_info.price == user.price
                    && metadata.supplier_info.username == user.name)
            },
            Err(e) => register_request_error(request) == Some(e),
        },
{
    let RegisterFileRequest { file_hash, user } = request;
    let user = match user {
        Some(user) => user,
        None => {
            return Err(ServiceStatus::MissingUser);
        },
    };
    let ip = match parse_ipv4(user.ip.as_str()) {
        Some(ip) => ip,
        None => {
            return Err(ServiceStatus::BadIp);
        },
    };
    if user.port < 0 || user.port > 65535 {
        return Err(ServiceStatus::BadPort);
    }
    let port = user.port as u16;
    Ok(
        FileMetadata {
            file_hash: FileHash(file_hash),
            supplier_info: SupplierInfo { ip, port, price: user.price, username: user.name },
        },
    )
}

/// Shapes the node's reply to a registration: success exactly when the
/// registration was acknowledged, `OperationFailed` on any failure through
/// the channel, `UnexpectedResponse` on a reply that does not pair with
/// the request — defensive, never a panic.
pub fn shape_register_reply(reply: Response) -> (out: Result<(), ServiceStatus>)
    ensures
        (out == Ok::<(), ServiceStatus>(())) <==> (reply matches Ok(
            ResponseData::KadResponse(KadResponseData::RegisterFile { .. }),
        )),
        reply matches Err(_) ==> out == Err::<(), ServiceStatus>(ServiceStatus::OperationFailed),
        (reply matches Ok(data) && !(data matches ResponseData::KadResponse(
            KadResponseData::RegisterFile { .. },
        ))) ==> out == Err::<(), ServiceStatus>(ServiceStatus::UnexpectedResponse),
{
    match reply {
        Ok(ResponseData::KadResponse(KadResponseData::RegisterFile { key: _ })) => Ok(()),
        Ok(_) => Err(ServiceStatus::UnexpectedResponse),
        Err(_) => Err(ServiceStatus::OperationFailed),
    }
}

/// Shapes the node's reply to a provider query: exactly the provider set
/// the network handed back, or the channel or pairing failure.
pub fn shape_providers_reply(reply: Response) -> (out: Result<Vec<PeerId>, ServiceStatus>)
    ensures
        reply matches Ok(ResponseData::KadResponse(
            KadResponseData::GetProviders { key: _, providers },
        )) ==> out == Ok::<Vec<PeerId>, ServiceStatus>(providers),
        reply matches Err(_) ==> out == Err::<Vec<PeerId>, ServiceStatus>(
            ServiceStatus::OperationFailed,
        ),
        (reply matches Ok(data) && !(data matches ResponseData::KadResponse(
            KadResponseData::GetProviders { .. },
        ))) ==> out == Err::<Vec<PeerId>, ServiceStatus>(ServiceStatus::UnexpectedResponse),
{
    match reply {
        Ok(ResponseData::KadResponse(KadResponseData::GetProviders { key: _, providers })) => Ok(
            providers,
        ),
        Ok(_) => Err(ServiceStatus::UnexpectedResponse),
        Err(_) => Err(ServiceStatus::OperationFailed),
    }
}

/// Shapes the owning peer's answer to a supplier lookup: exactly one
/// holder, built from the owner's identity and the record it sent, or the
/// channel or pairing failure.
pub fn shape_supplier_reply(owner: PeerId, reply: Response) -> (out: Result<
    HoldersResponse,
    ServiceStatus,
>)
    ensures
        reply matches Ok(ResponseData::ReqResResponse(
            FileReqResResponseData::GetSupplierInfo { supplier_info },
        )) ==> (out matches Ok(resp) && resp.holders@.len() == 1 && resp.holders@[0].peer == owner
            && resp.holders@[0].ip == supplier_info.ip && resp.holders@[0].port
            == supplier_info.port && resp.holders@[0].price == supplier_info.price
            && resp.holders@[0].username == supplier_info.username),
        reply matches Err(_) ==> out == Err::<HoldersResponse, ServiceStatus>(
            ServiceStatus::OperationFailed,
        ),
        (reply matches Ok(data) && !(data matches ResponseData::ReqResResponse(
            FileReqResResponseData::GetSupplierInfo { .. },
        ))) ==> out == Err::<HoldersResponse, ServiceStatus>(ServiceStatus::UnexpectedResponse),
{
    match reply {
        Ok(ResponseData::ReqResResponse(FileReqResResponseData::GetSupplierInfo {
            supplier_info,
        })) => {
            let mut holders: Vec<Holder> = Vec::new();
            holders.push(holder_from(owner, supplier_info));
            Ok(HoldersResponse { holders })
        },
        Ok(_) => Err(ServiceStatus::UnexpectedResponse),
        Err(_) => Err(ServiceStatus::OperationFailed),
    }
}

/// Shapes a supplier record, learned from the peer that owns it, into a
/// holder entry.
pub fn holder_from(peer: PeerId, info: SupplierInfo) -> (h: Holder)
    ensures
        h.peer == peer,
        h.ip == info.ip,
        h.port == info.port,
        h.price == info.price,
        h.username == info.username,
{
    Holder { peer, ip: info.ip, port: info.port, price: info.price, username: info.username }
}

/// The façade's state: a handle on the node that stores and finds files.
#[derive(Debug)]
pub struct MarketService {
    pub dht_store: DhtClient,
}

impl MarketService {
    pub fn new(dht_store: DhtClient) -> (s: Self)
        ensures
            s.dht_store == dht_store,
    {
        MarketService { dht_store }
    }

    /// Registers a file a client supplies: validates the request, submits
    /// the registration, and waits for the node's reply.
    ///
    /// An invalid request fails with exactly its validation error before
    /// anything is submitted. A valid one can still fail — with
    /// `Unavailable` when the loop is gone, `OperationFailed` when the
    /// network operation did, `UnexpectedResponse` if the reply does not
    /// pair with the request — as the loop and the engine decide; success
    /// means the node answered the registration.
    pub fn register_file(&self, request: RegisterFileRequest) -> (r: Result<(), ServiceStatus>)
        ensures
            (match register_request_error(request) {
                Some(e) => r == Err::<(), ServiceStatus>(e),
                None => r matches Ok(_) || r == Err::<(), ServiceStatus>(
                    ServiceStatus::Unavailable,
                ) || r == Err::<(), ServiceStatus>(ServiceStatus::OperationFailed) || r == Err::<
                    (),
                    ServiceStatus,
                >(ServiceStatus::UnexpectedResponse),
            }),
    {
        let file_metadata = match validate_register_file(request) {
            Ok(metadata) => metadata,
            Err(e) => {
                return Err(e);
            },
        };
        let response_handler = match self.dht_store.register_file(file_metadata) {
            Ok(response_handler) => response_handler,
            Err(_) => {
                return Err(ServiceStatus::Unavailable);
            },
        };
        shape_register_reply(response_handler.get_response_data())
    }

    /// Finds holders of a file: asks the network who provides the key,
    /// then asks the first provider for its supplier record, as that peer
    /// stores it. Yields at most one holder — the provider that answered —
    /// or no holder at all when the network knows no provider.
    pub fn check_holders(&self, request: CheckHoldersRequest) -> (r: Result<
        HoldersResponse,
        ServiceStatus,
    >)
        ensures
            r matches Ok(resp) ==> resp.holders@.len() <= 1,
            r matches Err(e) ==> (e == ServiceStatus::Unavailable || e
                == ServiceStatus::OperationFailed || e == ServiceStatus::UnexpectedResponse),
    {
        let key = FileHash(request.file_hash);
        let lookup_key = key.clone();
        let response_handler = match self.dht_store.get_providers(key.0) {
            Ok(response_handler) => response_handler,
            Err(_) => {
                return Err(ServiceStatus::Unavailable);
            },
        };
        let mut providers = match shape_providers_reply(response_handler.get_response_data()) {
            Ok(providers) => providers,
            Err(e) => {
                return Err(e);
            },
        };
        if providers.len() == 0 {
            return Ok(HoldersResponse { holders: Vec::new() });
        }
        let owner_peer = providers.remove(0);
        let owner_identity = owner_peer.clone();
        let response_handler = match self.dht_store.submit(
            RequestData::ReqResRequest(
                FileReqResRequestData::GetSupplierInfo {
                    file_hash: lookup_key,
                    peer_id: owner_peer,
                },
            ),
        ) {
            Ok(response_handler) => response_handler,
            Err(_) => {
                return Err(ServiceStatus::Unavailable);
            },
        };
        shape_supplier_reply(owner_identity, response_handler.get_response_data())
    }
}

} // verus!
