use auctioneer::auction::AuctionContext;
use auctioneer::auction_schedule::{Proposer, ProposerSchedule, RelaySet};
use auctioneer::bidder::{
    answer_revenue_query, payload_to_submit, process_bid_update, EngineQuery, EngineReply, Message,
};
use auctioneer::clock::{ClockMessage, Context};
use auctioneer::engine::{process_proposals, start_build, BuildAttempt, BuildResponse};
use auctioneer::payload::{BuilderPayloadBuilderAttributes, BuiltPayload, ProposalAttributes};
use auctioneer::primitives::{Fork, U256};
use auctioneer::service::{Config, Dispatch, Events, Service};
use auctioneer::submission::{Error, SignedBidSubmission};

const GENESIS: u64 = 1_606_824_023;
const SECONDS_PER_SLOT: u64 = 12;
const SLOTS_PER_EPOCH: u64 = 32;

fn service(relay_count: usize) -> Service {
    let config = Config {
        secret_key: [1; 32],
        public_key: [5; 48],
        relays: vec!["https://relay.example".to_string(); relay_count],
    };
    let context = Context { slots_per_epoch: SLOTS_PER_EPOCH, seconds_per_slot: SECONDS_PER_SLOT };
    Service::new(config, relay_count, context, GENESIS)
}

fn proposer(fill: u8) -> Proposer {
    Proposer { public_key: [fill; 48], fee_recipient: [fill; 20], gas_limit: 30_000_000 }
}

fn entry(slot: u64, fill: u8) -> ProposerSchedule {
    ProposerSchedule { slot, proposer: proposer(fill) }
}

fn attributes_at(slot: u64, payload_id: u64) -> BuilderPayloadBuilderAttributes {
    BuilderPayloadBuilderAttributes::new([9; 32], GENESIS + slot * SECONDS_PER_SLOT, payload_id)
}

fn payload(id: u64, fork: Fork) -> BuiltPayload {
    BuiltPayload {
        id,
        fork,
        block_hash: [4; 32],
        gas_limit: 30_000_000,
        gas_used: 21_000,
        fees: U256 { limbs: [1_000, 0, 0, 0] },
    }
}

/// Opens every auction that the attributes lead to, with an engine that
/// starts each build under the identifier of its attributes.
fn open_all(service: &mut Service, attributes: BuilderPayloadBuilderAttributes) -> Vec<AuctionContext> {
    let attempts = service
        .on_payload_attributes(attributes)
        .unwrap()
        .into_iter()
        .map(|auction| {
            let response = BuildResponse::Started(auction.attributes.payload_id());
            BuildAttempt { auction, response }
        })
        .collect();
    process_proposals(&attempts)
        .into_iter()
        .map(|auction| service.process_new_auction(auction))
        .collect()
}

#[test]
fn a_new_service_knows_nothing() {
    let service = service(3);
    assert_eq!(service.relay_count(), 3);
    assert_eq!(service.config().public_key, [5; 48]);
    assert_eq!(service.config().secret_key, [1; 32]);
    assert_eq!(service.config().relays.len(), 3);
    assert!(service.get_proposals(0).is_none());
    assert!(service.get_auction(0).is_none());
    assert!(!service.is_processed(0, 0));
}

#[test]
fn a_cloned_config_holds_the_same_keys_and_relays() {
    let config = Config {
        secret_key: [1; 32],
        public_key: [5; 48],
        relays: vec!["https://a.example".to_string(), "https://b.example".to_string()],
    };
    let copy = config.clone();
    assert_eq!(copy.secret_key, config.secret_key);
    assert_eq!(copy.public_key, config.public_key);
    assert_eq!(copy.relays, config.relays);
    assert_eq!(copy.relays, vec!["https://a.example".to_string(), "https://b.example".to_string()]);
}

#[test]
fn default_config_names_no_relay() {
    let config = Config::default();
    assert!(config.relays.is_empty());
    assert_eq!(Service::new(config, 0, Context { slots_per_epoch: 1, seconds_per_slot: 1 }, 0)
        .relay_count(), 0);
}

#[test]
fn schedules_are_fetched_at_the_start_and_the_middle_of_an_epoch() {
    let mut service = service(1);
    assert!(service.on_slot(0));
    assert!(service.on_slot(16));
    assert!(service.on_slot(64));
    assert!(service.on_slot(80));
    assert!(!service.on_slot(15));
    assert!(!service.on_slot(81));
    assert!(service.process_clock(ClockMessage::NewSlot(96)));
    assert!(!service.process_clock(ClockMessage::NewSlot(97)));
    assert!(!service.process_clock(ClockMessage::NewEpoch(3)));
}

#[test]
fn a_relay_that_fails_takes_nothing_from_the_others() {
    let mut service = service(3);
    service.fetch_proposer_schedules(&vec![
        Some(vec![entry(100, 1)]),
        None,
        Some(vec![entry(100, 1), entry(101, 2)]),
    ]);
    let proposals = service.get_proposals(100).unwrap();
    assert_eq!(proposals.len(), 1);
    assert_eq!(proposals.get(0).unwrap().proposer, proposer(1));
    assert_eq!(proposals.get(0).unwrap().relays.to_vec(), vec![0, 2]);
    assert_eq!(service.get_proposals(101).unwrap().get(0).unwrap().relays.to_vec(), vec![2]);
    assert!(service.get_proposals(102).is_none());
}

#[test]
fn schedules_accumulate_over_fetches() {
    let mut service = service(2);
    service.fetch_proposer_schedules(&vec![Some(vec![entry(100, 1)]), None]);
    service.fetch_proposer_schedules(&vec![None, Some(vec![entry(100, 1)])]);
    assert_eq!(service.get_proposals(100).unwrap().get(0).unwrap().relays.to_vec(), vec![0, 1]);
}

#[test]
fn attributes_for_an_unclaimed_slot_open_nothing() {
    let mut service = service(1);
    service.fetch_proposer_schedules(&vec![Some(vec![entry(100, 1)])]);
    assert_eq!(service.on_payload_attributes(attributes_at(101, 7)), Ok(vec![]));
    assert!(service.is_processed(101, 7));
    assert!(!service.is_processed(100, 7));
}

#[test]
fn attributes_before_genesis_have_no_slot() {
    let mut service = service(1);
    let attributes = BuilderPayloadBuilderAttributes::new([9; 32], GENESIS - 1, 7);
    assert_eq!(service.on_payload_attributes(attributes), Err(Error::NoSlot));
    assert_eq!(service.process_payload_event(Events::Attributes(attributes)), Err(Error::NoSlot));
}

#[test]
fn attributes_have_no_slot_when_slots_have_no_duration() {
    let context = Context { slots_per_epoch: SLOTS_PER_EPOCH, seconds_per_slot: 0 };
    let mut service = Service::new(Config::default(), 1, context, GENESIS);
    assert_eq!(service.on_payload_attributes(attributes_at(100, 7)), Err(Error::NoSlot));
}

#[test]
fn attributes_open_an_auction_for_the_scheduled_proposer() {
    let mut service = service(1);
    service.fetch_proposer_schedules(&vec![Some(vec![entry(100, 0xaa)])]);
    let auctions = service.on_payload_attributes(attributes_at(100, 7)).unwrap();
    assert_eq!(auctions.len(), 1);
    assert_eq!(auctions[0].slot, 100);
    assert_eq!(auctions[0].proposer, proposer(0xaa));
    assert_eq!(auctions[0].relays.to_vec(), vec![0]);
    assert_eq!(
        auctions[0].attributes.proposal,
        Some(ProposalAttributes {
            proposer_gas_limit: 30_000_000,
            proposer_fee_recipient: [0xaa; 20],
        })
    );
    assert_eq!(auctions[0].attributes.payload_id(), 15302837016424297736);
    assert!(service.is_processed(100, 7));
    // nothing is open before the build has started
    assert!(service.get_auction(15302837016424297736).is_none());
}

#[test]
fn duplicate_attributes_trigger_no_second_build() {
    let mut service = service(2);
    service.fetch_proposer_schedules(&vec![Some(vec![entry(100, 1)]), Some(vec![entry(100, 2)])]);
    let attributes = attributes_at(100, 7);
    assert_eq!(service.on_payload_attributes(attributes).unwrap().len(), 2);
    assert_eq!(service.on_payload_attributes(attributes), Ok(vec![]));
    assert_eq!(service.process_payload_event(Events::Attributes(attributes)), Ok(vec![]));
    // the same timestamp within the slot, another identifier: not a duplicate
    assert_eq!(service.on_payload_attributes(attributes_at(100, 8)).unwrap().len(), 2);
}

#[test]
fn attributes_are_duplicates_within_their_slot_only() {
    let mut service = service(1);
    service.fetch_proposer_schedules(&vec![Some(vec![entry(100, 1), entry(101, 1)])]);
    assert_eq!(service.on_payload_attributes(attributes_at(100, 7)).unwrap().len(), 1);
    assert_eq!(service.on_payload_attributes(attributes_at(101, 7)).unwrap().len(), 1);
    let late_in_slot =
        BuilderPayloadBuilderAttributes::new([9; 32], GENESIS + 100 * SECONDS_PER_SLOT + 11, 7);
    assert_eq!(service.on_payload_attributes(late_in_slot), Ok(vec![]));
}

#[test]
fn two_proposers_lead_to_two_auctions() {
    let mut service = service(2);
    service.fetch_proposer_schedules(&vec![
        Some(vec![entry(100, 0xaa)]),
        Some(vec![entry(100, 0xbb)]),
    ]);
    let opened = open_all(&mut service, attributes_at(100, 7));
    assert_eq!(opened.len(), 2);
    assert_ne!(opened[0], opened[1]);
    let first_id = opened[0].attributes.payload_id();
    let second_id = opened[1].attributes.payload_id();
    assert_eq!(first_id, 15302837016424297736);
    assert_eq!(second_id, 10016400723561775492);
    assert_eq!(service.get_auction(first_id), Some(&opened[0]));
    assert_eq!(service.get_auction(second_id), Some(&opened[1]));
    assert_eq!(opened[0].proposer, proposer(0xaa));
    assert_eq!(opened[0].relays.to_vec(), vec![0]);
    assert_eq!(opened[1].proposer, proposer(0xbb));
    assert_eq!(opened[1].relays.to_vec(), vec![1]);
    assert!(service.get_auction(7).is_none());
}

#[test]
fn engine_events_other_than_attributes_are_ignored() {
    let mut service = service(1);
    service.fetch_proposer_schedules(&vec![Some(vec![entry(100, 1)])]);
    assert_eq!(
        service.process_payload_event(Events::BuiltPayload(payload(7, Fork::Deneb))),
        Ok(vec![])
    );
    assert!(!service.is_processed(100, 7));
    assert_eq!(
        service.process_payload_event(Events::Attributes(attributes_at(100, 7))).unwrap().len(),
        1
    );
}

#[test]
fn a_failed_build_opens_no_auction() {
    let mut service = service(2);
    service.fetch_proposer_schedules(&vec![
        Some(vec![entry(100, 0xaa)]),
        Some(vec![entry(100, 0xbb)]),
    ]);
    let mut auctions = service.on_payload_attributes(attributes_at(100, 7)).unwrap();
    let second = auctions.pop().unwrap();
    let first = auctions.pop().unwrap();
    let second_id = second.attributes.payload_id();
    let attempts = vec![
        BuildAttempt { auction: first, response: BuildResponse::Failed },
        BuildAttempt { auction: second, response: BuildResponse::Started(second_id) },
    ];
    let started = process_proposals(&attempts);
    assert_eq!(started.len(), 1);
    for auction in started {
        service.process_new_auction(auction);
    }
    assert!(service.get_auction(15302837016424297736).is_none());
    assert!(service.get_auction(second_id).is_some());
}

#[test]
fn an_auction_is_recorded_under_the_computed_identifier() {
    let mut service = service(1);
    service.fetch_proposer_schedules(&vec![Some(vec![entry(100, 0xaa)])]);
    let auction = service.on_payload_attributes(attributes_at(100, 7)).unwrap().pop().unwrap();
    let computed = auction.attributes.payload_id();
    let returned = computed ^ 1;
    let response = BuildResponse::Started(returned);
    let outcome = start_build(&auction.attributes, &response);
    assert!(outcome.mismatch);
    assert_eq!(outcome.payload_id, Some(returned));
    let started = process_proposals(&vec![BuildAttempt { auction, response }]);
    assert_eq!(started.len(), 1);
    for auction in started {
        let published = service.process_new_auction(auction);
        assert_eq!(published.attributes.payload_id(), computed);
    }
    assert!(service.get_auction(computed).is_some());
    assert!(service.get_auction(returned).is_none());
}

#[test]
fn the_first_auction_under_an_identifier_stays() {
    let mut service = service(2);
    let mut relays = RelaySet::new();
    relays.insert(0);
    let first = AuctionContext {
        slot: 100,
        attributes: attributes_at(100, 7),
        proposer: proposer(1),
        relays,
    };
    let mut relays = RelaySet::new();
    relays.insert(1);
    let second = AuctionContext {
        slot: 100,
        attributes: attributes_at(100, 7),
        proposer: proposer(2),
        relays,
    };
    assert_eq!(service.process_new_auction(first.clone()), first);
    assert_eq!(service.process_new_auction(second), first);
    assert_eq!(service.get_auction(7), Some(&first));
}

#[test]
fn an_unknown_relay_is_passed_over() {
    let mut service = service(3);
    let mut relays = RelaySet::new();
    relays.insert(1);
    relays.insert(4);
    relays.insert(3);
    relays.insert(0);
    let auction = AuctionContext {
        slot: 100,
        attributes: attributes_at(100, 7),
        proposer: proposer(1),
        relays,
    };
    assert_eq!(service.process_new_auction(auction.clone()), auction);
    let payload = payload(7, Fork::Capella);
    let message = service.bid_trace(&payload).unwrap();
    let signature = [6; 96];
    assert_eq!(
        service.submit_payload(&payload, Some(signature)),
        Ok(Dispatch {
            submission: SignedBidSubmission::Capella { message, signature },
            relays: vec![1, 0],
            unknown_relays: vec![4, 3],
        })
    );
}

#[test]
fn an_auction_without_relays_is_submitted_to_none() {
    let mut service = service(1);
    let auction = AuctionContext {
        slot: 100,
        attributes: attributes_at(100, 7),
        proposer: proposer(1),
        relays: RelaySet::new(),
    };
    service.process_new_auction(auction);
    let dispatch = service.submit_payload(&payload(7, Fork::Deneb), Some([6; 96])).unwrap();
    assert_eq!(dispatch.relays, Vec::<usize>::new());
    assert_eq!(dispatch.unknown_relays, Vec::<usize>::new());
}

#[test]
fn a_new_epoch_forgets_stale_slots() {
    let mut service = service(1);
    service.fetch_proposer_schedules(&vec![Some(vec![entry(95, 1), entry(96, 2), entry(97, 3)])]);
    let stale = open_all(&mut service, attributes_at(95, 5)).pop().unwrap();
    let first = open_all(&mut service, attributes_at(96, 6)).pop().unwrap();
    let later = open_all(&mut service, attributes_at(97, 7)).pop().unwrap();
    service.on_epoch(3);
    assert!(service.get_proposals(95).is_none());
    assert!(service.get_proposals(96).is_some());
    assert!(service.get_proposals(97).is_some());
    assert!(service.get_auction(stale.attributes.payload_id()).is_none());
    assert_eq!(service.get_auction(first.attributes.payload_id()), Some(&first));
    assert_eq!(service.get_auction(later.attributes.payload_id()), Some(&later));
    assert!(!service.is_processed(95, 5));
    assert!(service.is_processed(96, 6));
    assert!(service.is_processed(97, 7));
}

#[test]
fn an_earlier_epoch_forgets_nothing() {
    let mut service = service(1);
    service.fetch_proposer_schedules(&vec![Some(vec![entry(96, 2)])]);
    let open = open_all(&mut service, attributes_at(96, 6)).pop().unwrap();
    assert!(!service.process_clock(ClockMessage::NewEpoch(2)));
    assert!(service.get_proposals(96).is_some());
    assert!(service.get_auction(open.attributes.payload_id()).is_some());
    assert!(service.is_processed(96, 6));
}

#[test]
fn an_epoch_beyond_every_slot_forgets_everything() {
    let mut service = service(1);
    service.fetch_proposer_schedules(&vec![Some(vec![entry(u64::MAX / 12, 2)])]);
    service.on_epoch(u64::MAX);
    assert!(service.get_proposals(u64::MAX / 12).is_none());
}

#[test]
fn forgotten_attributes_are_new_again() {
    let mut service = service(1);
    service.fetch_proposer_schedules(&vec![Some(vec![entry(95, 1)])]);
    assert_eq!(service.on_payload_attributes(attributes_at(95, 5)).unwrap().len(), 1);
    service.on_epoch(3);
    service.fetch_proposer_schedules(&vec![Some(vec![entry(95, 1)])]);
    assert_eq!(service.on_payload_attributes(attributes_at(95, 5)).unwrap().len(), 1);
}

#[test]
fn a_payload_without_an_auction_is_not_submitted() {
    let service = service(1);
    let payload = payload(7, Fork::Deneb);
    assert_eq!(service.bid_trace(&payload), Err(Error::UnknownAuction(7)));
    assert_eq!(service.submit_payload(&payload, Some([6; 96])), Err(Error::UnknownAuction(7)));
    assert_eq!(service.submit_payload(&payload, None), Err(Error::UnknownAuction(7)));
}

#[test]
fn submission_errors_are_told_apart() {
    let mut service = service(1);
    service.fetch_proposer_schedules(&vec![Some(vec![entry(100, 1)])]);
    let id = open_all(&mut service, attributes_at(100, 7)).pop().unwrap().attributes.payload_id();
    assert_eq!(service.submit_payload(&payload(id, Fork::Deneb), None), Err(Error::Signing));
    assert_eq!(
        service.submit_payload(&payload(id, Fork::Altair), Some([6; 96])),
        Err(Error::UnsupportedFork(Fork::Altair))
    );
    assert!(service.submit_payload(&payload(id, Fork::Capella), Some([6; 96])).is_ok());
}

#[test]
fn submission_variant_matches_the_fork() {
    let mut service = service(1);
    service.fetch_proposer_schedules(&vec![Some(vec![entry(100, 1)])]);
    let id = open_all(&mut service, attributes_at(100, 7)).pop().unwrap().attributes.payload_id();
    let signature = [6; 96];
    for fork in [Fork::Bellatrix, Fork::Capella, Fork::Deneb] {
        let payload = payload(id, fork);
        let message = service.bid_trace(&payload).unwrap();
        let expected = match fork {
            Fork::Bellatrix => SignedBidSubmission::Bellatrix { message, signature },
            Fork::Capella => SignedBidSubmission::Capella { message, signature },
            _ => SignedBidSubmission::Deneb { message, signature },
        };
        assert_eq!(
            service.submit_payload(&payload, Some(signature)),
            Ok(Dispatch { submission: expected, relays: vec![0], unknown_relays: vec![] })
        );
    }
}

#[test]
fn a_resolved_payload_goes_to_the_relays_of_its_proposer() {
    // slot 100 belongs to one proposer, registered with relays 0 and 2 of three
    let mut service = service(3);
    let scheduled = proposer(0xaa);
    assert!(service.process_clock(ClockMessage::NewSlot(96)));
    service.fetch_proposer_schedules(&vec![
        Some(vec![entry(100, 0xaa)]),
        Some(vec![]),
        Some(vec![entry(100, 0xaa)]),
    ]);

    // attributes stamped with the time of slot 100 arrive
    let attributes = attributes_at(100, 7);
    assert_eq!(attributes.timestamp(), GENESIS + 100 * SECONDS_PER_SLOT);
    let opened = open_all(&mut service, attributes);
    assert_eq!(opened.len(), 1);
    let id = opened[0].attributes.payload_id();
    assert_eq!(opened[0].relays.to_vec(), vec![0, 2]);

    // the bidder asks what the payload is worth, then dispatches
    assert_eq!(process_bid_update(&Message::RevenueQuery(id)), Some(EngineQuery::BestPayload(id)));
    let built = payload(id, Fork::Deneb);
    assert_eq!(answer_revenue_query(&EngineReply::Payload(built)), Some(built.fees));
    let dispatch = Message::Dispatch { payload_id: id, value: built.fees, keep_alive: false };
    assert_eq!(process_bid_update(&dispatch), Some(EngineQuery::Resolve(id)));

    // the engine resolves the payload
    let resolved = payload_to_submit(&EngineReply::Payload(built)).unwrap();
    let message = service.bid_trace(&resolved).unwrap();
    assert_eq!(message.slot, 100);
    assert_eq!(message.parent_hash, [9; 32]);
    assert_eq!(message.block_hash, [4; 32]);
    assert_eq!(message.builder_public_key, [5; 48]);
    assert_eq!(message.proposer_public_key, scheduled.public_key);
    assert_eq!(message.proposer_fee_recipient, scheduled.fee_recipient);
    assert_eq!(message.gas_limit, scheduled.gas_limit);
    assert_eq!(message.gas_used, 21_000);
    assert_eq!(message.value, built.fees);

    let signature = [6; 96];
    let dispatch = service.submit_payload(&resolved, Some(signature)).unwrap();
    assert_eq!(dispatch.relays, vec![0, 2]);
    assert_eq!(dispatch.unknown_relays, Vec::<usize>::new());
    assert_eq!(dispatch.submission, SignedBidSubmission::Deneb { message, signature });
}

#[test]
fn a_revenue_query_for_an_expired_auction_has_no_value() {
    let mut service = service(1);
    service.fetch_proposer_schedules(&vec![Some(vec![entry(95, 1)])]);
    let id = open_all(&mut service, attributes_at(95, 5)).pop().unwrap().attributes.payload_id();
    service.on_epoch(3);
    assert!(service.get_auction(id).is_none());
    // the engine has dropped the build along with the auction
    assert_eq!(process_bid_update(&Message::RevenueQuery(id)), Some(EngineQuery::BestPayload(id)));
    assert_eq!(answer_revenue_query(&EngineReply::Absent), None);
}
