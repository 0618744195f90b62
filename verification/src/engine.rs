//! What the engine answers when it is asked to start a build, and what the
//! auctioneer makes of it.

use vstd::prelude::*;

use crate::auction::{auction_views, AuctionContext, AuctionView};
use crate::payload::{BuilderPayloadBuilderAttributes, PayloadId};

verus! {

/// The engine's answer to a request to build.
#[derive(Clone, Copy, Debug, PartialEq, Eq, Structural)]
pub enum BuildResponse {
    /// The build runs, under the identifier the engine gives it.
    Started(PayloadId),
    /// The engine could not start the build.
    Failed,
}

/// What came of a request to build.
#[derive(Clone, Copy, Debug, PartialEq, Eq, Structural)]
pub struct BuildOutcome {
    /// The identifier the engine returned, where the build started.
    pub payload_id: Option<PayloadId>,
    /// The engine returned another identifier than the attributes have.
    /// That should not happen and deserves a loud diagnostic; the
    /// identifier of the attributes stays the one to go by.
    pub mismatch: bool,
}

/// An auction to open, and what the engine answered when the build for it
/// was requested.
#[derive(Debug, PartialEq, Eq)]
pub struct BuildAttempt {
    pub auction: AuctionContext,
    pub response: BuildResponse,
}

/// What [`start_build`] returns.
pub open spec fn build_outcome(
    attributes: BuilderPayloadBuilderAttributes,
    response: BuildResponse,
) -> BuildOutcome {
    match response {
        BuildResponse::Started(payload_id) => BuildOutcome {
            payload_id: Some(payload_id),
            mismatch: payload_id != attributes.payload_id,
        },
        BuildResponse::Failed => BuildOutcome { payload_id: None, mismatch: false },
    }
}

/// The auction of an attempt, where its build started.
pub open spec fn started(attempt: BuildAttempt) -> Option<AuctionView> {
    if build_outcome(attempt.auction.attributes, attempt.response).payload_id is Some {
        Some(attempt.auction@)
    } else {
        None
    }
}

/// The auctions whose build started, in the order of the attempts.
pub open spec fn started_auctions(attempts: Seq<BuildAttempt>) -> Seq<AuctionView> {
    attempts.filter_map(|attempt: BuildAttempt| started(attempt))
}

/// Reads the engine's answer to the request to build `attributes`.
pub fn start_build(attributes: &BuilderPayloadBuilderAttributes, response: &BuildResponse) -> (outcome:
    BuildOutcome)
    ensures
        outcome == build_outcome(*attributes, *response),
{
    match response {
        BuildResponse::Started(payload_id) => BuildOutcome {
            payload_id: Some(*payload_id),
            mismatch: *payload_id != attributes.payload_id(),
        },
        BuildResponse::Failed => BuildOutcome { payload_id: None, mismatch: false },
    }
}

/// Keeps the auctions whose build started. A build that failed costs its
/// own auction and no other.
pub fn process_proposals(attempts: &Vec<BuildAttempt>) -> (auctions: Vec<AuctionContext>)
    ensures
        auction_views(auctions@) == started_auctions(attempts@),
{
    let ghost keep = |attempt: BuildAttempt| started(attempt);
    let mut auctions: Vec<AuctionContext> = Vec::new();
    let mut i: usize = 0;
    while i < attempts.len()
        invariant
            i <= attempts@.len(),
            keep == |attempt: BuildAttempt| started(attempt),
            auctions@.map_values(|auction: AuctionContext| auction@) == attempts@.take(
                i as int,
            ).filter_map(keep),
        decreases attempts@.len() - i,
    {
        let ghost before = auctions@.map_values(|auction: AuctionContext| auction@);
        let attempt = &attempts[i];
        proof {
            attempts@.lemma_filter_map_take_succ(keep, i as int);
        }
        if start_build(&attempt.auction.attributes, &attempt.response).payload_id.is_some() {
            auctions.push(attempt.auction.clone());
            assert(auctions@.map_values(|auction: AuctionContext| auction@) =~= before + seq![
                attempt.auction@,
            ]);
        }
        i += 1;
    }
    assert(attempts@.take(i as int) =~= attempts@);
    auctions
}

} // verus!
