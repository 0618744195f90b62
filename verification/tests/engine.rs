use auctioneer::auction::AuctionContext;
use auctioneer::auction_schedule::{Proposer, RelaySet};
use auctioneer::bidder::{
    answer_revenue_query, payload_to_submit, process_bid_update, EngineQuery, EngineReply, Message,
};
use auctioneer::engine::{
    process_proposals, start_build, BuildAttempt, BuildOutcome, BuildResponse,
};
use auctioneer::payload::{BuilderPayloadBuilderAttributes, BuiltPayload};
use auctioneer::primitives::{Fork, U256};

fn auction(payload_id: u64) -> AuctionContext {
    let mut relays = RelaySet::new();
    relays.insert(0);
    AuctionContext {
        slot: 100,
        attributes: BuilderPayloadBuilderAttributes::new([1; 32], 2_200, payload_id),
        proposer: Proposer { public_key: [2; 48], fee_recipient: [3; 20], gas_limit: 30_000_000 },
        relays,
    }
}

fn payload(id: u64, fees: u64) -> BuiltPayload {
    BuiltPayload {
        id,
        fork: Fork::Deneb,
        block_hash: [4; 32],
        gas_limit: 30_000_000,
        gas_used: 21_000,
        fees: U256 { limbs: [fees, 0, 0, 0] },
    }
}

#[test]
fn a_started_build_reports_the_engines_identifier() {
    let attributes = BuilderPayloadBuilderAttributes::new([1; 32], 2_200, 7);
    assert_eq!(
        start_build(&attributes, &BuildResponse::Started(7)),
        BuildOutcome { payload_id: Some(7), mismatch: false }
    );
}

#[test]
fn a_mismatching_identifier_is_flagged_and_tolerated() {
    let attributes = BuilderPayloadBuilderAttributes::new([1; 32], 2_200, 7);
    assert_eq!(
        start_build(&attributes, &BuildResponse::Started(8)),
        BuildOutcome { payload_id: Some(8), mismatch: true }
    );
}

#[test]
fn a_failed_build_reports_nothing() {
    let attributes = BuilderPayloadBuilderAttributes::new([1; 32], 2_200, 7);
    assert_eq!(
        start_build(&attributes, &BuildResponse::Failed),
        BuildOutcome { payload_id: None, mismatch: false }
    );
}

#[test]
fn only_started_builds_become_auctions() {
    let attempts = vec![
        BuildAttempt { auction: auction(1), response: BuildResponse::Started(1) },
        BuildAttempt { auction: auction(2), response: BuildResponse::Failed },
        BuildAttempt { auction: auction(3), response: BuildResponse::Started(99) },
        BuildAttempt { auction: auction(4), response: BuildResponse::Failed },
        BuildAttempt { auction: auction(5), response: BuildResponse::Started(5) },
    ];
    assert_eq!(process_proposals(&attempts), vec![auction(1), auction(3), auction(5)]);
    assert_eq!(process_proposals(&vec![]), vec![]);
    let failed = vec![BuildAttempt { auction: auction(1), response: BuildResponse::Failed }];
    assert_eq!(process_proposals(&failed), vec![]);
}

#[test]
fn a_revenue_query_peeks_at_the_best_payload() {
    assert_eq!(process_bid_update(&Message::RevenueQuery(7)), Some(EngineQuery::BestPayload(7)));
}

#[test]
fn a_dispatch_resolves_the_payload() {
    let message =
        Message::Dispatch { payload_id: 9, value: U256 { limbs: [5, 0, 0, 0] }, keep_alive: true };
    assert_eq!(process_bid_update(&message), Some(EngineQuery::Resolve(9)));
}

#[test]
fn other_messages_ask_nothing_of_the_engine() {
    assert_eq!(process_bid_update(&Message::NewAuction(auction(1))), None);
}

#[test]
fn revenue_is_what_the_best_payload_pays() {
    assert_eq!(
        answer_revenue_query(&EngineReply::Payload(payload(7, 1_000))),
        Some(U256 { limbs: [1_000, 0, 0, 0] })
    );
}

#[test]
fn revenue_of_an_unknown_payload_is_no_value() {
    assert_eq!(answer_revenue_query(&EngineReply::Absent), None);
}

#[test]
fn revenue_after_an_engine_failure_is_no_value() {
    assert_eq!(answer_revenue_query(&EngineReply::Failed), None);
}

#[test]
fn only_a_resolved_payload_is_submitted() {
    assert_eq!(payload_to_submit(&EngineReply::Payload(payload(7, 1))), Some(payload(7, 1)));
    assert_eq!(payload_to_submit(&EngineReply::Absent), None);
    assert_eq!(payload_to_submit(&EngineReply::Failed), None);
}
