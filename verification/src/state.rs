//! The auctioneer as a state machine: what it knows, and how each event
//! changes that.
//!
//! This is the mathematical account that [`crate::service::Service`] is
//! held to, and that the laws of [`crate::laws`] are proved of.

use vstd::prelude::*;

use crate::auction::{auctions_for, AuctionView};
use crate::auction_schedule::{
    assign_all, proposals_at, schedule_wf, schedule_within, ProposalView, ProposerSchedule,
    RelayIndex,
};
use crate::clock::{first_slot_of, refresh_due, slot_at, ClockMessage, Context, Epoch, Slot};
use crate::payload::{BuilderPayloadBuilderAttributes, BuiltPayload, PayloadId};
use crate::primitives::BlsSignature;
use crate::service::Config;
use crate::submission::{bid_trace_of, prepared, BidTrace, Error, SignedBidSubmission};
use crate::tables::{live_auctions, retained};

verus! {

/// What the auctioneer knows.
pub struct State {
    /// How many relays are configured. Relays go by their index.
    pub relay_count: usize,
    pub context: Context,
    pub genesis_time: u64,
    /// The configuration, with the builder's keys.
    pub config: Config,
    /// The proposers known for each slot, each with its relays.
    pub schedule: Map<Slot, Seq<ProposalView>>,
    /// The open auctions, by the identifier of their attributes.
    pub open_auctions: Map<PayloadId, AuctionView>,
    /// The identifiers of the payload attributes that were acted upon, by
    /// slot.
    pub processed: Map<Slot, Set<PayloadId>>,
}

/// `schedule` after relay `0` answered `responses[0]`, relay `1` answered
/// `responses[1]` and so on. A relay that failed to answer changes
/// nothing.
pub open spec fn merge_responses(
    schedule: Map<Slot, Seq<ProposalView>>,
    responses: Seq<Option<Vec<ProposerSchedule>>>,
) -> Map<Slot, Seq<ProposalView>>
    decreases responses.len(),
{
    if responses.len() == 0 {
        schedule
    } else {
        let before = merge_responses(schedule, responses.drop_last());
        match responses.last() {
            Some(entries) => assign_all(before, (responses.len() - 1) as usize, entries@),
            None => before,
        }
    }
}

/// The relays of `relays` that are configured, in their order.
pub open spec fn known_relays(relays: Seq<RelayIndex>, relay_count: usize) -> Seq<RelayIndex> {
    relays.filter(|relay: RelayIndex| relay < relay_count)
}

/// The relays of `relays` that are not configured, in their order.
pub open spec fn unknown_relays(relays: Seq<RelayIndex>, relay_count: usize) -> Seq<RelayIndex> {
    relays.filter(|relay: RelayIndex| relay >= relay_count)
}

impl State {
    /// The auctioneer at start: it knows the configuration and nothing
    /// else.
    pub open spec fn initial(
        relay_count: usize,
        context: Context,
        genesis_time: u64,
        config: Config,
    ) -> State {
        State {
            relay_count,
            context,
            genesis_time,
            config,
            schedule: Map::empty(),
            open_auctions: Map::empty(),
            processed: Map::empty(),
        }
    }

    /// What holds of the auctioneer at all times: an epoch has slots; the
    /// schedule lists each proposer of a slot once, with relays that are
    /// configured and named once; and an auction is kept under the
    /// identifier of its attributes, with relays that are named once.
    pub open spec fn wf(self) -> bool {
        &&& self.context.slots_per_epoch > 0
        &&& schedule_wf(self.schedule)
        &&& schedule_within(self.schedule, self.relay_count as int)
        &&& forall|id: PayloadId| #[trigger]
            self.open_auctions.contains_key(id) ==> self.open_auctions[id].payload_id() == id
                && self.open_auctions[id].relays.no_duplicates()
    }

    /// Every relay of every open auction is configured. This holds as
    /// long as the auctions that are handed in are those that
    /// [`State::proposed`] names.
    pub open spec fn relays_configured(self) -> bool {
        forall|id: PayloadId| #[trigger]
            self.open_auctions.contains_key(id) ==> self.open_auctions[id].relays_within(
                self.relay_count as int,
            )
    }

    /// After the relays answered a request for their schedules.
    pub open spec fn after_schedules(self, responses: Seq<Option<Vec<ProposerSchedule>>>) -> State {
        State { schedule: merge_responses(self.schedule, responses), ..self }
    }

    /// Whether the schedules are to be fetched when the clock says
    /// `message`.
    pub open spec fn fetch_due(self, message: ClockMessage) -> bool {
        match message {
            ClockMessage::NewSlot(slot) => refresh_due(slot, self.context.slots_per_epoch),
            ClockMessage::NewEpoch(_) => false,
        }
    }

    /// After an epoch began: what concerns a slot before the epoch's
    /// first is forgotten.
    pub open spec fn after_epoch(self, epoch: Epoch) -> State {
        let floor = first_slot_of(epoch, self.context.slots_per_epoch);
        State {
            schedule: retained(self.schedule, floor),
            open_auctions: live_auctions(self.open_auctions, floor),
            processed: retained(self.processed, floor),
            ..self
        }
    }

    /// After the clock said `message`.
    pub open spec fn after_clock(self, message: ClockMessage) -> State {
        match message {
            ClockMessage::NewSlot(_) => self,
            ClockMessage::NewEpoch(epoch) => self.after_epoch(epoch),
        }
    }

    /// The slot that `attributes` are for.
    pub open spec fn slot_of(self, attributes: BuilderPayloadBuilderAttributes) -> Option<Slot> {
        slot_at(attributes.timestamp, self.genesis_time, self.context.seconds_per_slot)
    }

    /// The identifiers that were acted upon for `slot`.
    pub open spec fn processed_at(self, slot: Slot) -> Set<PayloadId> {
        if self.processed.contains_key(slot) {
            self.processed[slot]
        } else {
            Set::empty()
        }
    }

    /// After payload attributes arrived: their identifier is on record
    /// for their slot.
    pub open spec fn after_attributes(self, attributes: BuilderPayloadBuilderAttributes) -> State {
        match self.slot_of(attributes) {
            Some(slot) => State {
                processed: self.processed.insert(
                    slot,
                    self.processed_at(slot).insert(attributes.payload_id),
                ),
                ..self
            },
            None => self,
        }
    }

    /// The auctions to open when payload attributes arrive: none for
    /// attributes that were seen before, else one for each proposer that
    /// is scheduled for their slot.
    pub open spec fn proposed(self, attributes: BuilderPayloadBuilderAttributes) -> Result<
        Seq<AuctionView>,
        Error,
    > {
        match self.slot_of(attributes) {
            Some(slot) => if self.processed_at(slot).contains(attributes.payload_id) {
                Ok(Seq::empty())
            } else {
                Ok(auctions_for(slot, attributes, proposals_at(self.schedule, slot)))
            },
            None => Err(Error::NoSlot),
        }
    }

    /// The auction that stands under the identifier of `auction` once
    /// `auction` was handed in: the one that was there first.
    pub open spec fn published(self, auction: AuctionView) -> AuctionView {
        if self.open_auctions.contains_key(auction.payload_id()) {
            self.open_auctions[auction.payload_id()]
        } else {
            auction
        }
    }

    /// After `auction` was handed in.
    pub open spec fn after_new_auction(self, auction: AuctionView) -> State {
        State {
            open_auctions: self.open_auctions.insert(
                auction.payload_id(),
                self.published(auction),
            ),
            ..self
        }
    }

    /// The record to sign for `payload`: the bid in the auction that is
    /// open under the payload's identifier.
    pub open spec fn bid_trace(self, payload: BuiltPayload) -> Result<BidTrace, Error> {
        if self.open_auctions.contains_key(payload.id) {
            Ok(bid_trace_of(payload, self.config.public_key, self.open_auctions[payload.id]))
        } else {
            Err(Error::UnknownAuction(payload.id))
        }
    }

    /// The signed bid for `payload`, given what the signer answered.
    pub open spec fn submission(self, payload: BuiltPayload, signature: Option<BlsSignature>) -> Result<
        SignedBidSubmission,
        Error,
    > {
        if self.open_auctions.contains_key(payload.id) {
            prepared(payload, signature, self.config.public_key, self.open_auctions[payload.id])
        } else {
            Err(Error::UnknownAuction(payload.id))
        }
    }

    /// The relays that the bid for `payload` goes to: those of its
    /// auction that are configured, in their order.
    pub open spec fn recipients(self, payload: BuiltPayload) -> Seq<RelayIndex> {
        known_relays(self.open_auctions[payload.id].relays, self.relay_count)
    }

    /// The relays of the auction of `payload` that get no bid because
    /// they are not configured. There should be none.
    pub open spec fn skipped(self, payload: BuiltPayload) -> Seq<RelayIndex> {
        unknown_relays(self.open_auctions[payload.id].relays, self.relay_count)
    }
}

} // verus!
