//! The command vocabulary and the one-shot reply channel.
//!
//! A caller constructs a [`RequestData`] and a linked
//! [`RequestHandler`]/[`ResponseHandler`] pair. The `RequestHandler` travels
//! to the event loop and is consumed exactly once to deliver a [`Response`];
//! the `ResponseHandler` stays with the caller and is consumed exactly once
//! to retrieve it. Each request variant has exactly one corresponding
//! response variant; [`response_matches_request`] states that pairing.

use vstd::prelude::*;

use crate::data::{FileHash, FileMetadata, Multiaddr, PeerId, SupplierInfo};
use crate::MarketError;

verus! {

/// What a caller finally receives for one submitted command.
pub type Response = Result<ResponseData, MarketError>;

#[verifier::external_type_specification]
#[verifier::external_body]
#[verifier::reject_recursive_types(T)]
pub struct ExOneshotSender<T>(tokio::sync::oneshot::Sender<T>);

#[verifier::external_type_specification]
#[verifier::external_body]
#[verifier::reject_recursive_types(T)]
pub struct ExOneshotReceiver<T>(tokio::sync::oneshot::Receiver<T>);

#[verifier::external_type_specification]
#[verifier::external_body]
pub struct ExOneshotRecvError(tokio::sync::oneshot::error::RecvError);

/// The loop's half of a caller's one-shot reply channel. It is moved into a
/// pending-request table when an operation is issued and consumed exactly
/// once — by `respond` — when the terminal event for that operation arrives.
pub struct RequestHandler {
    inner: tokio::sync::oneshot::Sender<Response>,
}

/// The caller's half of the reply channel, consumed exactly once to retrieve
/// the delivered `Response`.
pub struct ResponseHandler {
    inner: tokio::sync::oneshot::Receiver<Response>,
}

impl RequestHandler {
    /// Makes a fresh linked pair: what `respond` later delivers through the
    /// `RequestHandler` is what `get_response_data` on the paired
    /// `ResponseHandler` retrieves.
    ///
    /// Relies on tokio's `oneshot::channel`, which returns the two halves of
    /// a new one-shot channel.
    #[verifier::external_body]
    pub fn new() -> (RequestHandler, ResponseHandler) {
        let (response_sender, response_receiver) = tokio::sync::oneshot::channel();
        (
            RequestHandler { inner: response_sender },
            ResponseHandler { inner: response_receiver },
        )
    }

    /// Delivers the response to the waiting caller, consuming this half of
    /// the channel. Returns whether the caller still held its
    /// `ResponseHandler`: delivery into a dropped channel reports `false`
    /// and is otherwise a no-op, never a panic, so the loop keeps running
    /// when a caller disappears.
    ///
    /// Relies on tokio's `oneshot::Sender::send`, which returns `Err`
    /// exactly when the receiving half has already been dropped.
    #[verifier::external_body]
    pub fn respond(self, response: Response) -> bool {
        self.inner.send(response).is_ok()
    }
}

impl ResponseHandler {
    /// Waits for the paired delivery and yields it. If the loop dropped its
    /// `RequestHandler` without responding, this yields
    /// `Err(MarketError::ResponseLost)` instead of propagating a crash.
    /// It parks the calling thread, so it must be called from a synchronous
    /// context, never from inside an asynchronous executor.
    ///
    /// Relies on tokio's `oneshot::Receiver::blocking_recv`, which returns
    /// `Err(RecvError)` exactly when the sender was dropped without sending.
    #[verifier::external_body]
    pub fn get_response_data(self) -> Response {
        match self.inner.blocking_recv() {
            Ok(response) => response,
            Err(_) => Err(MarketError::ResponseLost),
        }
    }
}

/// One owed delivery: the parked reply channel of a caller, together with
/// the response that resolves it. The handlers that take a pending entry
/// out hand one of these back with the response fixed in their contracts;
/// the dispatch layer performs the delivery.
pub struct Resolution {
    pub request_handler: RequestHandler,
    pub response: Response,
}

/// Performs one owed delivery, consuming it. Reports whether the caller
/// still held its `ResponseHandler`; a caller that went away makes this a
/// no-op, never a fault.
pub fn deliver(resolution: Resolution) -> bool {
    resolution.request_handler.respond(resolution.response)
}

/// A command a caller may issue against the event loop.
#[derive(Debug, PartialEq, Eq)]
pub enum RequestData {
    GetAllListeners,
    GetConnectedPeers,
    IsConnectedTo(PeerId),
    KadRequest(KadRequestData),
    ReqResRequest(FileReqResRequestData),
}

/// The reply that answers exactly one [`RequestData`] variant.
#[derive(Debug, PartialEq, Eq)]
pub enum ResponseData {
    AllListeners { listeners: Vec<Multiaddr> },
    ConnectedPeers { connected_peers: Vec<PeerId> },
    IsConnectedTo { is_connected: bool },
    KadResponse(KadResponseData),
    ReqResResponse(FileReqResResponseData),
}

/// Operations against the distributed routing engine.
#[derive(Debug, PartialEq, Eq)]
pub enum KadRequestData {
    ClosestLocalPeers { key: Vec<u8> },
    ClosestPeers { key: Vec<u8> },
    RegisterFile { file_metadata: FileMetadata },
    GetProviders { key: Vec<u8> },
}

/// Replies for [`KadRequestData`] operations.
#[derive(Debug, PartialEq, Eq)]
pub enum KadResponseData {
    ClosestLocalPeers { peers: Vec<PeerId> },
    ClosestPeers { key: Vec<u8>, peers: Vec<PeerId> },
    RegisterFile { key: Vec<u8> },
    GetProviders { key: Vec<u8>, providers: Vec<PeerId> },
}

/// Requests of the point-to-point file-supplier lookup protocol.
#[derive(Debug, PartialEq, Eq)]
pub enum FileReqResRequestData {
    GetSupplierInfo { file_hash: FileHash, peer_id: PeerId },
}

/// Replies of the file-supplier lookup protocol.
#[derive(Debug, PartialEq, Eq)]
pub enum FileReqResResponseData {
    GetSupplierInfo { supplier_info: SupplierInfo },
}

/// The pairing invariant of the routing sub-vocabulary: which reply variant
/// answers which request variant.
pub open spec fn kad_response_matches_request(req: KadRequestData, resp: KadResponseData) -> bool {
    match (req, resp) {
        (KadRequestData::ClosestLocalPeers { .. }, KadResponseData::ClosestLocalPeers { .. }) => true,
        (KadRequestData::ClosestPeers { .. }, KadResponseData::ClosestPeers { .. }) => true,
        (KadRequestData::RegisterFile { .. }, KadResponseData::RegisterFile { .. }) => true,
        (KadRequestData::GetProviders { .. }, KadResponseData::GetProviders { .. }) => true,
        _ => false,
    }
}

/// The pairing invariant of the command vocabulary: every request variant
/// has exactly one corresponding response variant, and the dispatch logic
/// must deliver only that one.
pub open spec fn response_matches_request(req: RequestData, resp: ResponseData) -> bool {
    match (req, resp) {
        (RequestData::GetAllListeners, ResponseData::AllListeners { .. }) => true,
        (RequestData::GetConnectedPeers, ResponseData::ConnectedPeers { .. }) => true,
        (RequestData::IsConnectedTo(_), ResponseData::IsConnectedTo { .. }) => true,
        (RequestData::KadRequest(kad_req), ResponseData::KadResponse(kad_resp)) =>
            kad_response_matches_request(kad_req, kad_resp),
        (RequestData::ReqResRequest(_), ResponseData::ReqResResponse(_)) => true,
        _ => false,
    }
}

} // verus!
