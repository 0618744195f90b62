//! What passes between the auctioneer and the bidder, and what the engine
//! answers when the bidder asks about a payload.

use vstd::prelude::*;

use crate::auction::AuctionContext;
use crate::payload::{BuiltPayload, PayloadId};
use crate::primitives::U256;

verus! {

/// A message between the auctioneer and the bidder.
#[derive(Debug, PartialEq, Eq)]
pub enum Message {
    /// To the bidder: an auction has opened.
    NewAuction(AuctionContext),
    /// From the bidder: what is the payload of this auction worth now?
    RevenueQuery(PayloadId),
    /// From the bidder: submit the payload of this auction.
    Dispatch { payload_id: PayloadId, value: U256, keep_alive: bool },
}

/// What the auctioneer asks of the engine on behalf of the bidder.
#[derive(Clone, Copy, Debug, PartialEq, Eq, Structural)]
pub enum EngineQuery {
    /// Look at the best payload so far, and leave the build running.
    BestPayload(PayloadId),
    /// Take the final payload, which ends the build.
    Resolve(PayloadId),
}

/// What the engine answers to an [`EngineQuery`].
#[derive(Clone, Copy, Debug, PartialEq, Eq)]
pub enum EngineReply {
    Payload(BuiltPayload),
    /// The engine has no build under that identifier: the auction is over,
    /// or there never was one.
    Absent,
    /// The engine failed.
    Failed,
}

/// The query that a message of the bidder calls for, if any.
pub open spec fn query_for(message: Message) -> Option<EngineQuery> {
    match message {
        Message::RevenueQuery(payload_id) => Some(EngineQuery::BestPayload(payload_id)),
        Message::Dispatch { payload_id, .. } => Some(EngineQuery::Resolve(payload_id)),
        Message::NewAuction(_) => None,
    }
}

/// The answer to a revenue query: what the best payload pays, and no value
/// where the engine has no payload or failed.
pub open spec fn revenue_of(best: EngineReply) -> Option<U256> {
    match best {
        EngineReply::Payload(payload) => Some(payload.fees),
        _ => None,
    }
}

/// The payload to submit after a dispatch: the one the engine resolved,
/// and none where it has no payload or failed.
pub open spec fn resolved_payload(resolved: EngineReply) -> Option<BuiltPayload> {
    match resolved {
        EngineReply::Payload(payload) => Some(payload),
        _ => None,
    }
}

/// Decides what to ask the engine when the bidder sends `message`.
pub fn process_bid_update(message: &Message) -> (query: Option<EngineQuery>)
    ensures
        query == query_for(*message),
{
    match message {
        Message::RevenueQuery(payload_id) => Some(EngineQuery::BestPayload(*payload_id)),
        Message::Dispatch { payload_id, .. } => Some(EngineQuery::Resolve(*payload_id)),
        Message::NewAuction(_) => None,
    }
}

/// Answers a revenue query from what the engine said of the best payload.
/// A failure of the engine is answered like a payload that is not there.
pub fn answer_revenue_query(best: &EngineReply) -> (revenue: Option<U256>)
    ensures
        revenue == revenue_of(*best),
{
    match best {
        EngineReply::Payload(payload) => Some(payload.fees),
        _ => None,
    }
}

/// Picks the payload to submit from what the engine resolved.
pub fn payload_to_submit(resolved: &EngineReply) -> (payload: Option<BuiltPayload>)
    ensures
        payload == resolved_payload(*resolved),
{
    match resolved {
        EngineReply::Payload(payload) => Some(*payload),
        _ => None,
    }
}

} // verus!
