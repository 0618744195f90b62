//! The auctioneer itself: the tables it keeps and the decisions it takes
//! when the clock, the engine, the relays or the bidder have something to
//! say.

use std::collections::HashMap;
use std::collections::HashSet;
use vstd::prelude::*;

use crate::auction::{
    auction_views, auctions_for, auctions_or_error, open_auctions_for, AuctionContext,
};
use crate::auction_schedule::{
    lemma_assign_all_preserves, proposals_at, schedule_wf, schedule_within, AuctionSchedule,
    Proposals, ProposerSchedule, RelayIndex,
};
use crate::clock::{
    convert_timestamp_to_slot, first_slot_of, first_slot_of_epoch, is_refresh_due, ClockMessage,
    Context, Epoch, Slot,
};
use crate::payload::{BuilderPayloadBuilderAttributes, BuiltPayload, PayloadId};
use crate::primitives::{BlsPublicKey, BlsSignature, SecretKey};
use crate::state::State;
use crate::submission::{make_bid_trace, prepare_submission, BidTrace, Error, SignedBidSubmission};
use crate::tables::{auction_table, retain_auctions_from, retain_keys_from, retained};

verus! {

broadcast use vstd::std_specs::hash::group_hash_axioms;

/// What the auctioneer is configured with.
#[derive(Debug)]
pub struct Config {
    /// Secret key used to sign the bids that go to the relays.
    pub secret_key: SecretKey,
    /// Public key that belongs to the secret key.
    pub public_key: BlsPublicKey,
    /// The relays to submit bids to.
    pub relays: Vec<String>,
}

impl Clone for Config {
    fn clone(&self) -> (copy: Self)
        ensures
            copy.secret_key == self.secret_key,
            copy.public_key == self.public_key,
            copy.relays@ == self.relays@,
    {
        let mut relays: Vec<String> = Vec::new();
        let mut i: usize = 0;
        while i < self.relays.len()
            invariant
                i <= self.relays@.len(),
                relays@ == self.relays@.take(i as int),
            decreases self.relays@.len() - i,
        {
            relays.push(self.relays[i].clone());
            assert(relays@ =~= self.relays@.take(i + 1));
            i += 1;
        }
        assert(self.relays@.take(i as int) =~= self.relays@);
        Config { secret_key: self.secret_key, public_key: self.public_key, relays }
    }
}

impl Default for Config {
    /// A configuration without relays, with keys that are all zero.
    fn default() -> (config: Self)
        ensures
            config.relays@.len() == 0,
            forall|i: int| 0 <= i < 32 ==> config.secret_key@[i] == 0,
            forall|i: int| 0 <= i < 48 ==> config.public_key@[i] == 0,
    {
        Config { secret_key: [0u8; 32], public_key: [0u8; 48], relays: Vec::new() }
    }
}

/// An event of the engine's stream.
#[derive(Clone, Copy, Debug, PartialEq, Eq)]
pub enum Events {
    /// Payload attributes arrived.
    Attributes(BuilderPayloadBuilderAttributes),
    /// A payload was built.
    BuiltPayload(BuiltPayload),
}

/// A signed bid and the relays to submit it to, one after the other. A
/// relay that refuses the bid does not keep it from the others.
#[derive(Debug, PartialEq, Eq)]
pub struct Dispatch {
    pub submission: SignedBidSubmission,
    /// The relays that the bid goes to.
    pub relays: Vec<RelayIndex>,
    /// Relays that the auction names and that are not configured. They
    /// are passed over. One of them is a defect to report: the auctions
    /// that the auctioneer itself proposes name configured relays only.
    pub unknown_relays: Vec<RelayIndex>,
}

/// What a table of processed identifiers stands for.
pub open spec fn processed_table(table: Map<Slot, HashSet<PayloadId>>) -> Map<Slot, Set<PayloadId>> {
    table.map_values(|ids: HashSet<PayloadId>| ids@)
}

/// The auctioneer.
pub struct Service {
    config: Config,
    relay_count: usize,
    context: Context,
    genesis_time: u64,
    auction_schedule: AuctionSchedule,
    open_auctions: HashMap<PayloadId, AuctionContext>,
    processed_payload_attributes: HashMap<Slot, HashSet<PayloadId>>,
}

impl View for Service {
    type V = State;

    closed spec fn view(&self) -> State {
        State {
            relay_count: self.relay_count,
            context: self.context,
            genesis_time: self.genesis_time,
            config: self.config,
            schedule: self.auction_schedule@,
            open_auctions: auction_table(self.open_auctions@),
            processed: processed_table(self.processed_payload_attributes@),
        }
    }
}

impl Service {
    /// See [`State::wf`].
    pub open spec fn wf(&self) -> bool {
        self@.wf()
    }

    /// An auctioneer for `relay_count` relays. It knows no proposer and
    /// has no auction open. The configuration is kept as it is handed in,
    /// public key included.
    pub fn new(config: Config, relay_count: usize, context: Context, genesis_time: u64) -> (service:
        Self)
        requires
            context.slots_per_epoch > 0,
        ensures
            service@ == State::initial(relay_count, context, genesis_time, config),
            service.wf(),
    {
        let service = Service {
            config,
            relay_count,
            context,
            genesis_time,
            auction_schedule: AuctionSchedule::new(),
            open_auctions: HashMap::new(),
            processed_payload_attributes: HashMap::new(),
        };
        assert(service@.open_auctions =~= Map::empty());
        assert(service@.processed =~= Map::empty());
        service
    }

    /// The configuration that the auctioneer was made with.
    pub fn config(&self) -> (config: &Config)
        ensures
            *config == self@.config,
    {
        &self.config
    }

    /// How many relays are configured.
    pub fn relay_count(&self) -> (count: usize)
        ensures
            count == self@.relay_count,
    {
        self.relay_count
    }

    /// The auction that is open under `payload_id`, if there is one.
    pub fn get_auction(&self, payload_id: PayloadId) -> (auction: Option<&AuctionContext>)
        ensures
            match auction {
                Some(auction) => self@.open_auctions.contains_key(payload_id) && auction@
                    == self@.open_auctions[payload_id],
                None => !self@.open_auctions.contains_key(payload_id),
            },
    {
        self.open_auctions.get(&payload_id)
    }

    /// Whether payload attributes with `payload_id` were acted upon for
    /// `slot`.
    pub fn is_processed(&self, slot: Slot, payload_id: PayloadId) -> (processed: bool)
        ensures
            processed == self@.processed_at(slot).contains(payload_id),
    {
        match self.processed_payload_attributes.get(&slot) {
            Some(ids) => ids.contains(&payload_id),
            None => false,
        }
    }

    /// Merges the schedules that the relays reported. `responses` holds
    /// the answer of each configured relay at the relay's index: its
    /// schedule, or `None` where the relay could not be reached, which
    /// takes nothing from the others.
    pub fn fetch_proposer_schedules(&mut self, responses: &Vec<Option<Vec<ProposerSchedule>>>)
        requires
            old(self).wf(),
            responses@.len() == old(self)@.relay_count,
        ensures
            final(self)@ == old(self)@.after_schedules(responses@),
            final(self).wf(),
    {
        let mut relay_index: usize = 0;
        while relay_index < responses.len()
            invariant
                relay_index <= responses@.len(),
                responses@.len() == old(self)@.relay_count,
                self.wf(),
                self@ == old(self)@.after_schedules(responses@.take(relay_index as int)),
            decreases responses@.len() - relay_index,
        {
            let ghost before = self@;
            match &responses[relay_index] {
                Some(schedule) => {
                    self.auction_schedule.process(relay_index, schedule);
                    proof {
                        lemma_assign_all_preserves(
                            before.schedule,
                            relay_index,
                            schedule@,
                            before.relay_count as int,
                        );
                        assert(self@.open_auctions == before.open_auctions);
                        assert(schedule_wf(self@.schedule));
                        assert(schedule_within(self@.schedule, self@.relay_count as int));
                    }
                },
                None => {},
            }
            proof {
                let next = responses@.take(relay_index + 1);
                assert(next.drop_last() =~= responses@.take(relay_index as int));
                assert(next.last() == responses@[relay_index as int]);
            }
            relay_index += 1;
        }
        assert(responses@.take(relay_index as int) =~= responses@);
    }

    /// Whether the schedules are to be fetched anew at `slot`.
    pub fn on_slot(&self, slot: Slot) -> (fetch: bool)
        requires
            self.wf(),
        ensures
            fetch == self@.fetch_due(ClockMessage::NewSlot(slot)),
    {
        is_refresh_due(slot, self.context.slots_per_epoch)
    }

    /// Forgets what concerns a slot before the first slot of `epoch`: in
    /// the schedule, among the open auctions and among the processed
    /// payload attributes.
    pub fn on_epoch(&mut self, epoch: Epoch)
        requires
            old(self).wf(),
        ensures
            final(self)@ == old(self)@.after_epoch(epoch),
            final(self).wf(),
    {
        let ghost floor = first_slot_of(epoch, self.context.slots_per_epoch);
        match first_slot_of_epoch(epoch, self.context.slots_per_epoch) {
            Some(retain_slot) => {
                self.auction_schedule.clear(retain_slot);
                retain_auctions_from(&mut self.open_auctions, retain_slot);
                retain_keys_from(&mut self.processed_payload_attributes, retain_slot);
            },
            None => {
                self.auction_schedule.clear_all();
                self.open_auctions.clear();
                self.processed_payload_attributes.clear();
                assert(self@.schedule =~= retained(old(self)@.schedule, floor));
                assert(self@.open_auctions =~= old(self)@.after_epoch(epoch).open_auctions);
            },
        }
        assert(self@.processed =~= retained(old(self)@.processed, floor));
    }

    /// Acts on a message of the clock, and says whether the schedules are
    /// to be fetched anew.
    pub fn process_clock(&mut self, message: ClockMessage) -> (fetch: bool)
        requires
            old(self).wf(),
        ensures
            fetch == old(self)@.fetch_due(message),
            final(self)@ == old(self)@.after_clock(message),
            final(self).wf(),
    {
        match message {
            ClockMessage::NewSlot(slot) => self.on_slot(slot),
            ClockMessage::NewEpoch(epoch) => {
                self.on_epoch(epoch);
                false
            },
        }
    }

    /// The proposers that are scheduled for `slot`, if any is known.
    pub fn get_proposals(&self, slot: Slot) -> (proposals: Option<&Proposals>)
        ensures
            match proposals {
                Some(proposals) => self@.schedule.contains_key(slot) && proposals@
                    == self@.schedule[slot],
                None => !self@.schedule.contains_key(slot),
            },
    {
        self.auction_schedule.get_matching_proposals(slot)
    }

    /// Acts on payload attributes that arrived: puts them on record and
    /// returns the auctions to open, one for each proposer scheduled for
    /// their slot. The build of each is then to be requested from the
    /// engine. Attributes that were seen before open no auction.
    pub fn on_payload_attributes(&mut self, attributes: BuilderPayloadBuilderAttributes) -> (auctions:
        Result<Vec<AuctionContext>, Error>)
        requires
            old(self).wf(),
        ensures
            final(self)@ == old(self)@.after_attributes(attributes),
            final(self).wf(),
            auctions_or_error(auctions) == old(self)@.proposed(attributes),
    {
        let slot = match convert_timestamp_to_slot(
            attributes.timestamp(),
            self.genesis_time,
            self.context.seconds_per_slot,
        ) {
            Some(slot) => slot,
            None => {
                return Err(Error::NoSlot);
            },
        };
        let payload_id = attributes.payload_id();
        let mut processed_set = match self.processed_payload_attributes.remove(&slot) {
            Some(processed_set) => processed_set,
            None => HashSet::new(),
        };
        assert(processed_set@ == old(self)@.processed_at(slot));
        let is_new = processed_set.insert(payload_id);
        self.processed_payload_attributes.insert(slot, processed_set);
        assert(self@.processed =~= old(self)@.after_attributes(attributes).processed);
        if !is_new {
            let auctions: Vec<AuctionContext> = Vec::new();
            assert(auction_views(auctions@) =~= Seq::empty());
            return Ok(auctions);
        }
        match self.get_proposals(slot) {
            Some(proposals) => Ok(open_auctions_for(slot, &attributes, proposals)),
            None => {
                let auctions: Vec<AuctionContext> = Vec::new();
                assert(auction_views(auctions@) =~= auctions_for(
                    slot,
                    attributes,
                    proposals_at(old(self)@.schedule, slot),
                ));
                Ok(auctions)
            },
        }
    }

    /// Acts on an event of the engine. Only payload attributes call for
    /// anything: see [`Service::on_payload_attributes`].
    pub fn process_payload_event(&mut self, event: Events) -> (auctions: Result<
        Vec<AuctionContext>,
        Error,
    >)
        requires
            old(self).wf(),
        ensures
            final(self).wf(),
            match event {
                Events::Attributes(attributes) => {
                    &&& final(self)@ == old(self)@.after_attributes(attributes)
                    &&& auctions_or_error(auctions) == old(self)@.proposed(attributes)
                },
                Events::BuiltPayload(_) => {
                    &&& final(self)@ == old(self)@
                    &&& auctions matches Ok(auctions)
                    &&& auctions@.len() == 0
                },
            },
    {
        match event {
            Events::Attributes(attributes) => self.on_payload_attributes(attributes),
            Events::BuiltPayload(_) => Ok(Vec::new()),
        }
    }

    /// Opens `auction`, whose build has started, and returns the auction
    /// to announce to the bidder: the one that now stands under the
    /// identifier of `auction`. That is `auction` itself, unless an
    /// auction was open under the identifier already, which then stays.
    pub fn process_new_auction(&mut self, auction: AuctionContext) -> (published: AuctionContext)
        requires
            old(self).wf(),
        ensures
            final(self)@ == old(self)@.after_new_auction(auction@),
            final(self).wf(),
            published@ == old(self)@.published(auction@),
    {
        let payload_id = auction.attributes.payload_id();
        // Taking the length of a relay set recalls that it holds no relay
        // twice, which is what the table asks of an auction.
        let relay_total = auction.relays.len();
        assert(auction@.relays.len() == relay_total && auction@.relays.no_duplicates());
        match self.open_auctions.get(&payload_id) {
            Some(open) => {
                let published = open.clone();
                assert(self@.open_auctions =~= old(self)@.after_new_auction(
                    auction@,
                ).open_auctions);
                published
            },
            None => {
                let published = auction.clone();
                self.open_auctions.insert(payload_id, auction);
                assert(self@.open_auctions =~= old(self)@.after_new_auction(
                    auction@,
                ).open_auctions);
                published
            },
        }
    }

    /// The record to sign before the payload of a dispatched auction is
    /// submitted.
    pub fn bid_trace(&self, payload: &BuiltPayload) -> (message: Result<BidTrace, Error>)
        ensures
            message == self@.bid_trace(*payload),
    {
        match self.open_auctions.get(&payload.id) {
            Some(auction) => Ok(make_bid_trace(payload, &self.config.public_key, auction)),
            None => Err(Error::UnknownAuction(payload.id)),
        }
    }

    /// Prepares the submission of a payload that the engine resolved:
    /// the signed bid, in the form of the payload's fork, and the relays
    /// it goes to, which are those of the payload's auction. `signature`
    /// is what the signer answered for the record of
    /// [`Service::bid_trace`]: `None` where it failed.
    pub fn submit_payload(&self, payload: &BuiltPayload, signature: Option<BlsSignature>) -> (dispatch:
        Result<Dispatch, Error>)
        requires
            self.wf(),
        ensures
            match dispatch {
                Ok(dispatch) => {
                    &&& self@.submission(*payload, signature) == Ok::<_, Error>(dispatch.submission)
                    &&& dispatch.submission.fork() == payload.fork
                    &&& dispatch.relays@ == self@.recipients(*payload)
                    &&& dispatch.unknown_relays@ == self@.skipped(*payload)
                },
                Err(error) => self@.submission(*payload, signature) == Err::<
                    SignedBidSubmission,
                    _,
                >(error),
            },
    {
        let auction = match self.open_auctions.get(&payload.id) {
            Some(auction) => auction,
            None => {
                return Err(Error::UnknownAuction(payload.id));
            },
        };
        assert(self@.open_auctions.contains_key(payload.id));
        let submission = match prepare_submission(
            payload,
            signature,
            &self.config.public_key,
            auction,
        ) {
            Ok(submission) => submission,
            Err(error) => {
                return Err(error);
            },
        };
        let ghost all = auction@.relays;
        let ghost known = |relay: RelayIndex| relay < self.relay_count;
        let ghost unknown = |relay: RelayIndex| relay >= self.relay_count;
        let mut relays: Vec<RelayIndex> = Vec::new();
        let mut unknown_relays: Vec<RelayIndex> = Vec::new();
        let relay_total = auction.relays.len();
        let mut i: usize = 0;
        while i < relay_total
            invariant
                i <= relay_total,
                relay_total == all.len(),
                all == auction@.relays,
                known == |relay: RelayIndex| relay < self.relay_count,
                unknown == |relay: RelayIndex| relay >= self.relay_count,
                relays@ == all.take(i as int).filter(known),
                unknown_relays@ == all.take(i as int).filter(unknown),
            decreases relay_total - i,
        {
            proof {
                let next = all.take(i + 1);
                assert(next.drop_last() =~= all.take(i as int));
                assert(next.last() == all[i as int]);
                reveal(Seq::filter);
            }
            match auction.relays.get(i) {
                Some(relay) => {
                    if relay < self.relay_count {
                        relays.push(relay);
                    } else {
                        unknown_relays.push(relay);
                    }
                },
                None => {},
            }
            i += 1;
        }
        proof {
            assert(all.take(i as int) =~= all);
            assert(all.take(0).filter(known) =~= Seq::empty()) by {
                reveal(Seq::filter);
            }
        }
        Ok(Dispatch { submission, relays, unknown_relays })
    }
}

} // verus!
