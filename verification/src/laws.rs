//! What holds of the auctioneer whatever happens to it, stated over
//! [`State`] and proved.

use vstd::prelude::*;

use crate::auction::{auction_for, preferences_of, AuctionView};
use crate::auction_schedule::{
    assigned, lemma_assign_all_assigns, lemma_assign_all_preserves, proposals_at, schedule_wf,
    schedule_within, ProposalView, Proposer, ProposerSchedule, RelayIndex,
};
use crate::bidder::{revenue_of, EngineReply};
use crate::clock::{first_slot_of, Context, Epoch, Slot};
use crate::engine::{build_outcome, started, BuildAttempt, BuildResponse};
use crate::payload::{mixed_payload_id, BuilderPayloadBuilderAttributes, BuiltPayload, PayloadId};
use crate::primitives::{BlsSignature, Fork};
use crate::service::Config;
use crate::state::{known_relays, merge_responses, unknown_relays, State};
use crate::submission::{bid_trace_of, Error};

verus! {

/// Merging the answers of configured relays keeps the schedule well
/// formed and within the configured relays.
pub proof fn lemma_merge_responses_preserves(
    schedule: Map<Slot, Seq<ProposalView>>,
    responses: Seq<Option<Vec<ProposerSchedule>>>,
    relay_count: int,
)
    requires
        schedule_wf(schedule),
        schedule_within(schedule, relay_count),
        responses.len() <= relay_count,
        relay_count <= usize::MAX,
    ensures
        schedule_wf(merge_responses(schedule, responses)),
        schedule_within(merge_responses(schedule, responses), relay_count),
    decreases responses.len(),
{
    if responses.len() > 0 {
        lemma_merge_responses_preserves(schedule, responses.drop_last(), relay_count);
        let before = merge_responses(schedule, responses.drop_last());
        match responses.last() {
            Some(entries) => {
                lemma_assign_all_preserves(
                    before,
                    (responses.len() - 1) as usize,
                    entries@,
                    relay_count,
                );
            },
            None => {},
        }
    }
}

/// Whether the relay at index `relay` answered, and named `proposer` for
/// `slot` in its answer.
pub open spec fn reported(
    responses: Seq<Option<Vec<ProposerSchedule>>>,
    relay: RelayIndex,
    slot: Slot,
    proposer: Proposer,
) -> bool {
    &&& relay < responses.len()
    &&& responses[relay as int] matches Some(entries)
    &&& entries@.contains(ProposerSchedule { slot, proposer })
}

/// Merging the answers of the relays adds, under the index of each
/// relay, what that relay reported, and nothing else.
pub proof fn lemma_merge_responses_assigns(
    schedule: Map<Slot, Seq<ProposalView>>,
    responses: Seq<Option<Vec<ProposerSchedule>>>,
    slot: Slot,
    proposer: Proposer,
    relay: RelayIndex,
)
    requires
        responses.len() <= usize::MAX,
    ensures
        assigned(merge_responses(schedule, responses), slot, proposer, relay) <==> assigned(
            schedule,
            slot,
            proposer,
            relay,
        ) || reported(responses, relay, slot, proposer),
    decreases responses.len(),
{
    if responses.len() > 0 {
        let earlier = responses.drop_last();
        lemma_merge_responses_assigns(schedule, earlier, slot, proposer, relay);
        assert(reported(earlier, relay, slot, proposer) <==> relay < earlier.len() && reported(
            responses,
            relay,
            slot,
            proposer,
        ));
        match responses.last() {
            Some(entries) => {
                lemma_assign_all_assigns(
                    merge_responses(schedule, earlier),
                    (responses.len() - 1) as usize,
                    entries@,
                    slot,
                    proposer,
                    relay,
                );
            },
            None => {},
        }
    }
}

/// Sorting relays into the configured and the others loses none and
/// misplaces none; and where all are configured, all are kept, in their
/// order.
pub proof fn lemma_relays_sorted_by_configuration(relays: Seq<RelayIndex>, relay_count: usize)
    ensures
        forall|i: int|
            0 <= i < known_relays(relays, relay_count).len() ==> #[trigger] known_relays(
                relays,
                relay_count,
            )[i] < relay_count,
        forall|i: int|
            0 <= i < unknown_relays(relays, relay_count).len() ==> #[trigger] unknown_relays(
                relays,
                relay_count,
            )[i] >= relay_count,
        known_relays(relays, relay_count).len() + unknown_relays(relays, relay_count).len()
            == relays.len(),
        (forall|i: int| 0 <= i < relays.len() ==> #[trigger] relays[i] < relay_count) ==> {
            &&& known_relays(relays, relay_count) == relays
            &&& unknown_relays(relays, relay_count) == Seq::<RelayIndex>::empty()
        },
    decreases relays.len(),
{
    reveal(Seq::filter);
    if relays.len() > 0 {
        lemma_relays_sorted_by_configuration(relays.drop_last(), relay_count);
        if forall|i: int| 0 <= i < relays.len() ==> #[trigger] relays[i] < relay_count {
            assert forall|i: int| 0 <= i < relays.drop_last().len() implies #[trigger] relays.drop_last()[i]
                < relay_count by {
                assert(relays.drop_last()[i] == relays[i]);
            }
            assert(relays.last() < relay_count);
            assert(relays.drop_last().push(relays.last()) =~= relays);
        }
    } else {
        assert(known_relays(relays, relay_count) =~= relays);
        assert(unknown_relays(relays, relay_count) =~= Seq::<RelayIndex>::empty());
    }
}

/// The invariants of the auctioneer hold at start.
pub proof fn law_initial_state_is_well_formed(
    relay_count: usize,
    context: Context,
    genesis_time: u64,
    config: Config,
)
    requires
        context.slots_per_epoch > 0,
    ensures
        State::initial(relay_count, context, genesis_time, config).wf(),
        State::initial(relay_count, context, genesis_time, config).relays_configured(),
{
}

/// After the relays answered, the schedule knows what it knew before and
/// what each relay reported, under the index of that relay. A relay that
/// did not answer adds nothing and takes nothing away.
pub proof fn law_schedules_merge_under_relay_index(
    state: State,
    responses: Seq<Option<Vec<ProposerSchedule>>>,
    slot: Slot,
    proposer: Proposer,
    relay: RelayIndex,
)
    requires
        responses.len() <= state.relay_count,
    ensures
        assigned(state.after_schedules(responses).schedule, slot, proposer, relay) <==> assigned(
            state.schedule,
            slot,
            proposer,
            relay,
        ) || reported(responses, relay, slot, proposer),
{
    lemma_merge_responses_assigns(state.schedule, responses, slot, proposer, relay);
}

/// The invariants of the auctioneer survive every event: the answers of
/// the relays, a new epoch, payload attributes, and a new auction. The
/// relays of the open auctions stay configured as long as those of each
/// new auction are.
pub proof fn law_events_keep_state_well_formed(
    state: State,
    responses: Seq<Option<Vec<ProposerSchedule>>>,
    epoch: Epoch,
    attributes: BuilderPayloadBuilderAttributes,
    auction: AuctionView,
)
    requires
        state.wf(),
    ensures
        responses.len() <= state.relay_count ==> state.after_schedules(responses).wf(),
        state.after_epoch(epoch).wf(),
        state.after_attributes(attributes).wf(),
        auction.relays.no_duplicates() ==> state.after_new_auction(auction).wf(),
        state.relays_configured() ==> {
            &&& state.after_schedules(responses).relays_configured()
            &&& state.after_epoch(epoch).relays_configured()
            &&& state.after_attributes(attributes).relays_configured()
            &&& auction.relays_within(state.relay_count as int) ==> state.after_new_auction(
                auction,
            ).relays_configured()
        },
{
    if responses.len() <= state.relay_count {
        lemma_merge_responses_preserves(state.schedule, responses, state.relay_count as int);
    }
    let after = state.after_new_auction(auction);
    if auction.relays.no_duplicates() {
        assert forall|id: PayloadId| #[trigger] after.open_auctions.contains_key(id) implies (
        after.open_auctions[id].payload_id() == id
            && after.open_auctions[id].relays.no_duplicates()) by {
            if id != auction.payload_id() {
                assert(state.open_auctions.contains_key(id));
            }
        }
    }
    if state.relays_configured() && auction.relays_within(state.relay_count as int) {
        assert forall|id: PayloadId| #[trigger]
            after.open_auctions.contains_key(id) implies after.open_auctions[id].relays_within(
            after.relay_count as int,
        ) by {
            if id != auction.payload_id() {
                assert(state.open_auctions.contains_key(id));
            }
        }
    }
}

/// Payload attributes that are delivered a second time open no auction:
/// of two deliveries only the first leads to builds.
pub proof fn law_duplicate_attributes_open_no_auction(
    state: State,
    attributes: BuilderPayloadBuilderAttributes,
)
    requires
        state.slot_of(attributes) is Some,
    ensures
        state.after_attributes(attributes).proposed(attributes) == Ok::<Seq<AuctionView>, Error>(
            Seq::empty(),
        ),
{
}

/// Payload attributes stay on record while the relays answer, while
/// other attributes arrive and while auctions open; and through a new
/// epoch too, unless their slot lies before the epoch's first.
pub proof fn law_processed_attributes_stay_on_record(
    state: State,
    slot: Slot,
    payload_id: PayloadId,
    responses: Seq<Option<Vec<ProposerSchedule>>>,
    other: BuilderPayloadBuilderAttributes,
    auction: AuctionView,
    epoch: Epoch,
)
    requires
        state.processed_at(slot).contains(payload_id),
    ensures
        state.after_schedules(responses).processed_at(slot).contains(payload_id),
        state.after_attributes(other).processed_at(slot).contains(payload_id),
        state.after_new_auction(auction).processed_at(slot).contains(payload_id),
        slot >= first_slot_of(epoch, state.context.slots_per_epoch) ==> state.after_epoch(
            epoch,
        ).processed_at(slot).contains(payload_id),
{
}

/// Payload attributes that are new for their slot open one auction for
/// each proposer that is scheduled for the slot, each with the
/// preferences of its proposer attached and with the relays of its
/// proposer, all of them configured.
pub proof fn law_one_auction_per_scheduled_proposer(
    state: State,
    attributes: BuilderPayloadBuilderAttributes,
    slot: Slot,
)
    requires
        state.wf(),
        state.slot_of(attributes) == Some(slot),
        !state.processed_at(slot).contains(attributes.payload_id),
    ensures
        state.proposed(attributes) is Ok,
        state.proposed(attributes)->Ok_0.len() == proposals_at(state.schedule, slot).len(),
        forall|i: int|
            0 <= i < proposals_at(state.schedule, slot).len() ==> {
                let auction = #[trigger] state.proposed(attributes)->Ok_0[i];
                let proposal = proposals_at(state.schedule, slot)[i];
                &&& auction == auction_for(slot, attributes, proposal)
                &&& auction.relays_within(state.relay_count as int)
            },
{
    let proposals = proposals_at(state.schedule, slot);
    let auctions = state.proposed(attributes)->Ok_0;
    assert forall|i: int| 0 <= i < proposals.len() implies {
        let auction = #[trigger] auctions[i];
        &&& auction == auction_for(slot, attributes, proposals[i])
        &&& auction.relays_within(state.relay_count as int)
    } by {
        assert(state.schedule.contains_key(slot));
        let relays = proposals[i].relays;
        assert(relays.no_duplicates());
        assert forall|j: int| 0 <= j < relays.len() implies #[trigger] relays[j]
            < state.relay_count by {
            assert(proposals[i].relays[j] < state.relay_count);
        }
    }
}

/// Two proposers that are scheduled for one slot get an auction each.
/// The two auctions differ, and they stand under different identifiers
/// wherever the digests of the proposers' preferences differ in their
/// leading bytes. Once both are handed in, both are open.
pub proof fn law_two_proposers_two_auctions(
    state: State,
    attributes: BuilderPayloadBuilderAttributes,
    slot: Slot,
    i: int,
    j: int,
)
    requires
        state.wf(),
        state.slot_of(attributes) == Some(slot),
        !state.processed_at(slot).contains(attributes.payload_id),
        attributes.proposal is None,
        0 <= i < j < proposals_at(state.schedule, slot).len(),
    ensures
        ({
            let first = state.proposed(attributes)->Ok_0[i];
            let second = state.proposed(attributes)->Ok_0[j];
            let first_id = mixed_payload_id(attributes.payload_id, preferences_of(first.proposer));
            let second_id = mixed_payload_id(
                attributes.payload_id,
                preferences_of(second.proposer),
            );
            let after = state.after_new_auction(first).after_new_auction(second);
            &&& first.proposer != second.proposer
            &&& first != second
            &&& first.payload_id() == first_id
            &&& second.payload_id() == second_id
            &&& first_id != second_id && !state.open_auctions.contains_key(first_id)
                && !state.open_auctions.contains_key(second_id) ==> {
                &&& after.open_auctions.contains_key(first_id)
                &&& after.open_auctions.contains_key(second_id)
                &&& after.open_auctions[first_id] == first
                &&& after.open_auctions[second_id] == second
            }
        }),
{
    law_one_auction_per_scheduled_proposer(state, attributes, slot);
    let proposals = proposals_at(state.schedule, slot);
    assert(state.schedule.contains_key(slot));
    assert(proposals[i].proposer != proposals[j].proposer);
    let auctions = state.proposed(attributes)->Ok_0;
    assert(auctions[i] == auction_for(slot, attributes, proposals[i]));
    assert(auctions[j] == auction_for(slot, attributes, proposals[j]));
}

/// After a new epoch nothing is left of the slots before the epoch's
/// first: no schedule entry, no open auction, no processed attributes.
/// What concerns later slots is untouched.
pub proof fn law_epoch_forgets_stale_slots(state: State, epoch: Epoch)
    ensures
        ({
            let floor = first_slot_of(epoch, state.context.slots_per_epoch);
            let after = state.after_epoch(epoch);
            &&& forall|slot: Slot| #[trigger] after.schedule.contains_key(slot) ==> slot >= floor
            &&& forall|slot: Slot| #[trigger] after.processed.contains_key(slot) ==> slot >= floor
            &&& forall|id: PayloadId| #[trigger]
                after.open_auctions.contains_key(id) ==> after.open_auctions[id].slot >= floor
            &&& forall|slot: Slot|
                slot >= floor && #[trigger] state.schedule.contains_key(slot)
                    ==> after.schedule.contains_key(slot) && after.schedule[slot]
                    == state.schedule[slot]
            &&& forall|slot: Slot, proposer: Proposer, relay: RelayIndex| #[trigger]
                assigned(after.schedule, slot, proposer, relay) <==> slot >= floor && assigned(
                    state.schedule,
                    slot,
                    proposer,
                    relay,
                )
            &&& forall|slot: Slot|
                slot >= floor ==> #[trigger] after.processed_at(slot) == state.processed_at(slot)
            &&& forall|id: PayloadId|
                #[trigger] state.open_auctions.contains_key(id) && state.open_auctions[id].slot
                    >= floor ==> after.open_auctions.contains_key(id) && after.open_auctions[id]
                    == state.open_auctions[id]
        }),
{
}

/// A bid is submitted in the form of its payload's fork, which must be
/// one of three; it carries the proposer's key and fee recipient and the
/// payload's figures; and it goes to the configured relays of its
/// auction, which are all of them, each once, as long as the auctions
/// that were handed in name configured relays only.
pub proof fn law_submission_follows_payload_and_auction(
    state: State,
    payload: BuiltPayload,
    signature: Option<BlsSignature>,
)
    requires
        state.wf(),
    ensures
        state.submission(payload, signature) is Ok <==> {
            &&& state.open_auctions.contains_key(payload.id)
            &&& signature is Some
            &&& (payload.fork == Fork::Bellatrix || payload.fork == Fork::Capella || payload.fork
                == Fork::Deneb)
        },
        state.submission(payload, signature) matches Ok(submission) ==> {
            let auction = state.open_auctions[payload.id];
            let message = submission.message();
            &&& submission.fork() == payload.fork
            &&& submission.signature() == signature->Some_0
            &&& message == bid_trace_of(payload, state.config.public_key, auction)
            &&& Ok::<_, Error>(message) == state.bid_trace(payload)
            &&& message.slot == auction.slot
            &&& message.proposer_public_key == auction.proposer.public_key
            &&& message.proposer_fee_recipient == auction.proposer.fee_recipient
            &&& message.gas_limit == payload.gas_limit
            &&& message.value == payload.fees
            &&& forall|i: int|
                0 <= i < state.recipients(payload).len() ==> #[trigger] state.recipients(
                    payload,
                )[i] < state.relay_count
            &&& state.recipients(payload).len() + state.skipped(payload).len()
                == auction.relays.len()
            &&& state.relays_configured() ==> {
                &&& state.recipients(payload) == auction.relays
                &&& state.recipients(payload).no_duplicates()
                &&& state.skipped(payload) == Seq::<RelayIndex>::empty()
            }
        },
        state.submission(payload, signature) matches Err(error) ==> error == (
        if !state.open_auctions.contains_key(payload.id) {
            Error::UnknownAuction(payload.id)
        } else if signature is None {
            Error::Signing
        } else {
            Error::UnsupportedFork(payload.fork)
        }),
{
    if state.open_auctions.contains_key(payload.id) {
        lemma_relays_sorted_by_configuration(
            state.open_auctions[payload.id].relays,
            state.relay_count,
        );
    }
}

/// An engine that starts a build under another identifier than the
/// attributes have does not stop the auction: the mismatch is flagged,
/// the auction counts as started, and it opens under the identifier of
/// its attributes.
pub proof fn law_identifier_mismatch_is_tolerated(
    state: State,
    attempt: BuildAttempt,
    returned: PayloadId,
)
    requires
        state.wf(),
        attempt.response == BuildResponse::Started(returned),
        returned != attempt.auction@.payload_id(),
    ensures
        build_outcome(attempt.auction.attributes, attempt.response).mismatch,
        started(attempt) == Some(attempt.auction@),
        state.after_new_auction(attempt.auction@).open_auctions.contains_key(
            attempt.auction@.payload_id(),
        ),
        state.after_new_auction(attempt.auction@).open_auctions.contains_key(returned)
            == state.open_auctions.contains_key(returned),
{
}

/// An auction is opened once: handing in a second auction under an
/// identifier that is taken changes nothing, and the bidder is told of
/// the auction that was there first.
pub proof fn law_first_auction_stays(state: State, auction: AuctionView)
    requires
        state.open_auctions.contains_key(auction.payload_id()),
    ensures
        state.after_new_auction(auction).open_auctions == state.open_auctions,
        state.published(auction) == state.open_auctions[auction.payload_id()],
{
    assert(state.after_new_auction(auction).open_auctions =~= state.open_auctions);
}

/// An open auction does not change: whatever happens, it stays as it was
/// when it opened, until a new epoch closes it because its slot has
/// passed.
pub proof fn law_open_auctions_do_not_change(
    state: State,
    id: PayloadId,
    responses: Seq<Option<Vec<ProposerSchedule>>>,
    attributes: BuilderPayloadBuilderAttributes,
    auction: AuctionView,
    epoch: Epoch,
)
    requires
        state.open_auctions.contains_key(id),
    ensures
        state.after_schedules(responses).open_auctions.contains_key(id),
        state.after_schedules(responses).open_auctions[id] == state.open_auctions[id],
        state.after_attributes(attributes).open_auctions.contains_key(id),
        state.after_attributes(attributes).open_auctions[id] == state.open_auctions[id],
        state.after_new_auction(auction).open_auctions.contains_key(id),
        state.after_new_auction(auction).open_auctions[id] == state.open_auctions[id],
        state.after_epoch(epoch).open_auctions.contains_key(id) <==> state.open_auctions[id].slot
            >= first_slot_of(epoch, state.context.slots_per_epoch),
        state.after_epoch(epoch).open_auctions.contains_key(id) ==> state.after_epoch(
            epoch,
        ).open_auctions[id] == state.open_auctions[id],
{
}

/// A revenue query is answered with a value exactly when the engine has a
/// payload; an engine that has none, or fails, makes the answer "no
/// value" and nothing worse.
pub proof fn law_no_revenue_without_payload(best: EngineReply)
    ensures
        revenue_of(best) is Some <==> best is Payload,
        best matches EngineReply::Payload(payload) ==> revenue_of(best) == Some(payload.fees),
{
}

} // verus!
