//! Core of a peer-to-peer file-hosting marketplace node.
//!
//! Peers advertise content-addressed files they are willing to host and
//! discover suppliers for a given file through a distributed hash table.
//! This crate holds the concurrency and protocol-composition machinery that
//! makes such a node usable as a library: the command/response bridge that
//! carries one correlated reply per submitted command, the composition of the
//! routing, identification and file-supplier lookup protocols into one
//! dispatch surface, and the per-protocol pending-request tables that match
//! asynchronous network events back to the caller that triggered them.
//! The routing engine itself and the physical transport are outside
//! collaborators: the loop that owns them hands their events to the verified
//! handlers here as plain values.

use vstd::prelude::*;

pub mod behaviour;
pub mod bridge;
pub mod data;
pub mod file_req_res;
pub mod ipv4;
pub mod kad;
pub mod market_map;
pub mod node;
pub mod pending;
pub mod req_res;
pub mod service;

verus! {

/// Error taxonomy for every caller-facing failure. All of these travel as
/// ordinary `Result` values; none of the library's verified functions panics.
#[derive(Debug, Clone, Copy, PartialEq, Eq, Structural)]
pub enum MarketError {
    /// The command inlet no longer accepts submissions: the loop terminated.
    BridgeClosed,
    /// The paired reply channel was dropped or closed without a delivery.
    ResponseLost,
    /// The transport or protocol failed to deliver a request or to complete
    /// a query; timeouts surface here as well.
    NetworkOutboundFailure,
    /// An inbound request could not be answered; no caller waits on this.
    NetworkInboundFailure,
    /// The record store backing the routing adapter rejected a read or
    /// write. Reserved for fallible backings — capacity, corruption; the
    /// in-memory store in this crate never rejects one, so nothing here
    /// produces this variant.
    StoreError,
}

} // verus!
