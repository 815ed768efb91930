//! The command/response bridge: how any caller context — synchronous or
//! asynchronous, on any thread — issues operations against the single-owner
//! event loop and receives exactly one correlated reply.
//!
//! Submission enqueues the command and the caller's reply channel into the
//! loop's command inlet and returns at once; the caller later waits only on
//! its own [`ResponseHandler`]. The loop drains the outlet end; commands
//! from one caller arrive in submission order, and the loop never blocks on
//! a caller.

use vstd::prelude::*;

use crate::data::PeerId;
use crate::req_res::{RequestData, RequestHandler, ResponseHandler};
use crate::MarketError;

verus! {

#[verifier::external_type_specification]
#[verifier::external_body]
#[verifier::reject_recursive_types(T)]
pub struct ExUnboundedSender<T>(tokio::sync::mpsc::UnboundedSender<T>);

#[verifier::external_type_specification]
#[verifier::external_body]
#[verifier::reject_recursive_types(T)]
pub struct ExUnboundedReceiver<T>(tokio::sync::mpsc::UnboundedReceiver<T>);

/// A caller's handle on a running node: the submission end of the loop's
/// command inlet, and the node's own identity — what a caller hands to
/// other nodes that want to bootstrap against this one. Cloneable
/// conceptually — every caller context may hold one — though each handle
/// here is owned by one caller.
#[derive(Debug)]
pub struct DhtClient {
    inlet: tokio::sync::mpsc::UnboundedSender<(RequestData, RequestHandler)>,
    local_peer: PeerId,
}

/// The loop's end of the command inlet: the only place commands come out.
pub struct CommandOutlet {
    outlet: tokio::sync::mpsc::UnboundedReceiver<(RequestData, RequestHandler)>,
}

/// The two ends of a fresh command queue.
///
/// Relies on tokio's `mpsc::unbounded_channel`: the two ends of a new
/// unbounded queue, first-in first-out per sender.
#[verifier::external_body]
fn unbounded_pair() -> (
    tokio::sync::mpsc::UnboundedSender<(RequestData, RequestHandler)>,
    tokio::sync::mpsc::UnboundedReceiver<(RequestData, RequestHandler)>,
) {
    tokio::sync::mpsc::unbounded_channel()
}

/// Makes the command inlet of a fresh node whose transport identity is
/// `local_peer`: the caller-facing handle and the loop-facing outlet.
pub fn command_channel(local_peer: PeerId) -> (r: (DhtClient, CommandOutlet))
    ensures
        r.0.spec_id() == local_peer,
{
    let (inlet, outlet) = unbounded_pair();
    (DhtClient { inlet, local_peer }, CommandOutlet { outlet })
}

impl DhtClient {
    /// The identity of the node this handle submits to.
    pub closed spec fn spec_id(&self) -> PeerId {
        self.local_peer
    }

    /// The identity of the node this handle submits to.
    pub fn id(&self) -> (r: &PeerId)
        ensures
            *r == self.spec_id(),
    {
        &self.local_peer
    }

    /// Enqueues one command with its reply channel. Never blocks: the
    /// queue is unbounded. Returns `false` exactly when the loop has
    /// terminated and its outlet is gone.
    ///
    /// Relies on tokio's `mpsc::UnboundedSender::send`, which returns `Err`
    /// exactly when the receiving half is closed or dropped.
    #[verifier::external_body]
    fn send_command(&self, request: RequestData, request_handler: RequestHandler) -> bool {
        self.inlet.send((request, request_handler)).is_ok()
    }

    /// Submits one command and hands back the channel on which its one
    /// reply will arrive. Submission itself never blocks and never touches
    /// the network; the caller chooses when — and whether — to wait. If the
    /// loop has terminated, the command cannot be accepted and this fails
    /// at once with `BridgeClosed`; otherwise the loop owes the submitted
    /// pair exactly one delivery attempt.
    pub fn submit(&self, request: RequestData) -> (r: Result<ResponseHandler, MarketError>)
        ensures
            r matches Err(e) ==> e == MarketError::BridgeClosed,
    {
        let (request_handler, response_handler) = RequestHandler::new();
        if self.send_command(request, request_handler) {
            Ok(response_handler)
        } else {
            Err(MarketError::BridgeClosed)
        }
    }

    /// Submits a listener enumeration.
    pub fn get_all_listeners(&self) -> (r: Result<ResponseHandler, MarketError>)
        ensures
            r matches Err(e) ==> e == MarketError::BridgeClosed,
    {
        self.submit(RequestData::GetAllListeners)
    }

    /// Submits a connected-peer enumeration.
    pub fn get_connected_peers(&self) -> (r: Result<ResponseHandler, MarketError>)
        ensures
            r matches Err(e) ==> e == MarketError::BridgeClosed,
    {
        self.submit(RequestData::GetConnectedPeers)
    }

    /// Submits a directed connectivity check.
    pub fn is_connected_to(&self, peer: crate::data::PeerId) -> (r: Result<
        ResponseHandler,
        MarketError,
    >)
        ensures
            r matches Err(e) ==> e == MarketError::BridgeClosed,
    {
        self.submit(RequestData::IsConnectedTo(peer))
    }

    /// Submits a local routing-table lookup for the peers closest to a key.
    pub fn closest_local_peers(&self, key: Vec<u8>) -> (r: Result<ResponseHandler, MarketError>)
        ensures
            r matches Err(e) ==> e == MarketError::BridgeClosed,
    {
        self.submit(
            RequestData::KadRequest(crate::req_res::KadRequestData::ClosestLocalPeers { key }),
        )
    }

    /// Submits a network-wide query for the peers closest to a key.
    pub fn closest_peers(&self, key: Vec<u8>) -> (r: Result<ResponseHandler, MarketError>)
        ensures
            r matches Err(e) ==> e == MarketError::BridgeClosed,
    {
        self.submit(RequestData::KadRequest(crate::req_res::KadRequestData::ClosestPeers { key }))
    }

    /// Submits a file registration: the node stores the record and
    /// announces itself as the key's provider.
    pub fn register_file(&self, file_metadata: crate::data::FileMetadata) -> (r: Result<
        ResponseHandler,
        MarketError,
    >)
        ensures
            r matches Err(e) ==> e == MarketError::BridgeClosed,
    {
        self.submit(
            RequestData::KadRequest(crate::req_res::KadRequestData::RegisterFile { file_metadata }),
        )
    }

    /// Submits a network query for the providers of a key.
    pub fn get_providers(&self, key: Vec<u8>) -> (r: Result<ResponseHandler, MarketError>)
        ensures
            r matches Err(e) ==> e == MarketError::BridgeClosed,
    {
        self.submit(RequestData::KadRequest(crate::req_res::KadRequestData::GetProviders { key }))
    }
}

impl CommandOutlet {
    /// Takes the next queued command, parking the loop's thread until one
    /// arrives. Yields nothing exactly when every `DhtClient` handle is
    /// gone and the queue has drained: the loop's cue to shut down. Must be
    /// called from a synchronous context, never inside an asynchronous
    /// executor.
    ///
    /// Relies on tokio's `mpsc::UnboundedReceiver::blocking_recv`.
    #[verifier::external_body]
    pub fn next_command(&mut self) -> Option<(RequestData, RequestHandler)> {
        self.outlet.blocking_recv()
    }
}

} // verus!
