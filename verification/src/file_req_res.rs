//! The file-supplier lookup protocol: a point-to-point request/response
//! exchange asking "for content key X, what is your stored supplier info?".
//!
//! The wire request body is the raw content key and the reply is the
//! responder's supplier record for it, carried over the dedicated protocol
//! identifier `/file_req_res/1.0.0` by the transport layer. The handler here
//! owns the protocol's own pending-request table and decides, for each
//! protocol event the loop hands in, which table entry resolves, with what
//! response, and what reply — if any — the responder sends back. The
//! resolution comes back as a value with its response fixed in the
//! contract; the dispatch layer performs the delivery.

use vstd::prelude::*;

use crate::data::{FileHash, PeerId, SupplierInfo};
use crate::market_map::MarketMap;
use crate::pending::PendingTable;
use crate::req_res::{
    FileReqResRequestData, FileReqResResponseData, RequestHandler, Resolution, ResponseData,
};
use crate::MarketError;

verus! {

/// Protocol identifier the lookup exchange travels under on the wire.
pub const FILE_REQ_RES_PROTOCOL: &'static str = "/file_req_res/1.0.0";

/// A terminal or informational event of the lookup protocol, as the loop
/// receives it from the transport. `request_id` is the transport-assigned
/// outbound-request correlation id, unique among outstanding requests.
pub enum FileReqResEvent {
    /// A peer asks this node for its supplier record for `file_hash`.
    InboundRequest { request_id: u64, file_hash: FileHash },
    /// The reply to an outbound request this node issued earlier.
    InboundResponse { request_id: u64, supplier_info: SupplierInfo },
    /// An outbound request failed to complete; timeouts arrive here too.
    OutboundFailure { request_id: u64 },
    /// This node failed to answer an inbound request. No caller waits on
    /// the responder side, so this is informational only.
    InboundFailure { request_id: u64 },
    /// Acknowledgement that a reply of ours went out; informational only.
    ResponseSent { request_id: u64 },
}

/// What one lookup-protocol event amounts to.
pub enum LookupEffect {
    /// An inbound request was answered out of the market map: the record to
    /// send back, or nothing at all for an unregistered key.
    Reply(Option<SupplierInfo>),
    /// A terminal event resolved its pending entry: one owed delivery,
    /// response included.
    Resolve(Resolution),
    /// Nothing to do: an unknown id, or an informational event.
    Nothing,
}

/// The pending table after an event: terminal events on the requester side
/// consume their correlation id, everything else leaves the table alone.
pub open spec fn pending_after_event(
    pending: Map<u64, RequestHandler>,
    event: FileReqResEvent,
) -> Map<u64, RequestHandler> {
    match event {
        FileReqResEvent::InboundResponse { request_id, .. } => pending.remove(request_id),
        FileReqResEvent::OutboundFailure { request_id } => pending.remove(request_id),
        _ => pending,
    }
}

/// The lookup protocol's dispatch state: its pending-request table.
pub struct FileReqResHandler {
    pending: PendingTable,
}

impl FileReqResHandler {
    /// The pending-request table's contents.
    pub closed spec fn pending_view(&self) -> Map<u64, RequestHandler> {
        self.pending@
    }

    /// A handler with no outstanding request.
    pub fn new() -> (h: Self)
        ensures
            h.pending_view() == Map::<u64, RequestHandler>::empty(),
    {
        FileReqResHandler { pending: PendingTable::new() }
    }

    /// Whether an outbound request with this correlation id is outstanding.
    pub fn is_pending(&self, request_id: u64) -> (r: bool)
        ensures
            r == self.pending_view().contains_key(request_id),
    {
        self.pending.contains(request_id)
    }

    /// Issues an outbound lookup. The transport has assigned `request_id`
    /// to the freshly sent request — fresh, so it is not among the
    /// outstanding ids and displaces no parked handler. The caller's
    /// `request_handler` is parked under it until the terminal event
    /// arrives. Returns the target peer and key so the loop can hand them
    /// to the transport.
    pub fn handle_request(
        &mut self,
        event: FileReqResRequestData,
        request_id: u64,
        request_handler: RequestHandler,
    ) -> (target: (PeerId, FileHash))
        requires
            !old(self).pending_view().contains_key(request_id),
        ensures
            final(self).pending_view()
                == old(self).pending_view().insert(request_id, request_handler),
            event == (FileReqResRequestData::GetSupplierInfo {
                file_hash: target.1,
                peer_id: target.0,
            }),
    {
        match event {
            FileReqResRequestData::GetSupplierInfo { file_hash, peer_id } => {
                self.pending.insert(request_id, request_handler);
                (peer_id, file_hash)
            },
        }
    }

    /// Routes one protocol event.
    ///
    /// On the requester side, a response or an outbound failure resolves
    /// the pending entry for its correlation id exactly once: the parked
    /// handler comes back as a `Resolution` carrying `Ok` with the received
    /// record, or `Err(NetworkOutboundFailure)` — a timeout is a normal
    /// failure resolution through the same channel, never a distinguished
    /// fatal path. An unknown id is a no-op. On the responder side, an
    /// inbound request for a registered key yields the record to send back;
    /// for an unregistered key it yields nothing, and no reply is sent —
    /// the deliberate partial-answer policy, the requester's own timeout
    /// surfacing later as an `OutboundFailure`. Inbound failures and
    /// sent-acknowledgements correlate to no caller and change nothing.
    pub fn handle_event(
        &mut self,
        event: FileReqResEvent,
        market_map: &MarketMap,
    ) -> (effect: LookupEffect)
        requires
            market_map.wf(),
        ensures
            final(self).pending_view() == pending_after_event(old(self).pending_view(), event),
            match event {
                FileReqResEvent::InboundRequest { file_hash, .. } => effect matches
                    LookupEffect::Reply(reply) && {
                    &&& (reply matches Some(info) ==> market_map@.contains_key(file_hash@)
                        && info == market_map@[file_hash@])
                    &&& (market_map@.contains_key(file_hash@) ==> (reply matches Some(info)
                        && info == market_map@[file_hash@]))
                },
                FileReqResEvent::InboundResponse { request_id, supplier_info } => {
                    if old(self).pending_view().contains_key(request_id) {
                        effect matches LookupEffect::Resolve(resolution)
                            && resolution.request_handler == old(self).pending_view()[request_id]
                            && resolution.response == Ok::<ResponseData, MarketError>(
                            ResponseData::ReqResResponse(
                                FileReqResResponseData::GetSupplierInfo { supplier_info },
                            ),
                        )
                    } else {
                        effect is Nothing
                    }
                },
                FileReqResEvent::OutboundFailure { request_id } => {
                    if old(self).pending_view().contains_key(request_id) {
                        effect matches LookupEffect::Resolve(resolution)
                            && resolution.request_handler == old(self).pending_view()[request_id]
                            && resolution.response == Err::<ResponseData, MarketError>(
                            MarketError::NetworkOutboundFailure,
                        )
                    } else {
                        effect is Nothing
                    }
                },
                FileReqResEvent::InboundFailure { .. } => effect is Nothing,
                FileReqResEvent::ResponseSent { .. } => effect is Nothing,
            },
    {
        match event {
            FileReqResEvent::InboundRequest { request_id: _, file_hash } => {
                match market_map.get(&file_hash) {
                    Some(supplier_info) => LookupEffect::Reply(Some(supplier_info.clone())),
                    None => LookupEffect::Reply(None),
                }
            },
            FileReqResEvent::InboundResponse { request_id, supplier_info } => {
                let response = ResponseData::ReqResResponse(
                    FileReqResResponseData::GetSupplierInfo { supplier_info },
                );
                match self.pending.take(request_id) {
                    Some(request_handler) => LookupEffect::Resolve(
                        Resolution { request_handler, response: Ok(response) },
                    ),
                    None => LookupEffect::Nothing,
                }
            },
            FileReqResEvent::OutboundFailure { request_id } => {
                match self.pending.take(request_id) {
                    Some(request_handler) => LookupEffect::Resolve(
                        Resolution {
                            request_handler,
                            response: Err(MarketError::NetworkOutboundFailure),
                        },
                    ),
                    None => LookupEffect::Nothing,
                }
            },
            FileReqResEvent::InboundFailure { request_id: _ } => LookupEffect::Nothing,
            FileReqResEvent::ResponseSent { request_id: _ } => LookupEffect::Nothing,
        }
    }
}

} // verus!
