//! Which proposers registered with which relays, slot by slot.
//!
//! Every relay reports the proposers it expects in upcoming slots. The
//! schedule keeps all of it: for each slot the proposers that were
//! reported, in the order they were first seen, and for each proposer the
//! relays that reported it. Nothing is resolved between relays that
//! disagree about a slot; each proposer they name keeps its own relays.

use std::collections::HashMap;
use vstd::prelude::*;

use crate::clock::Slot;
use crate::primitives::{bytes_equal, Address, BlsPublicKey};
use crate::tables::{retain_keys_from, retained};

verus! {

broadcast use vstd::std_specs::hash::group_hash_axioms;

/// Position of a relay in the list of configured relays.
pub type RelayIndex = usize;

/// A proposer and what it prefers for its block.
#[derive(Clone, Copy, Debug, PartialEq, Eq)]
pub struct Proposer {
    pub public_key: BlsPublicKey,
    pub fee_recipient: Address,
    pub gas_limit: u64,
}

impl Proposer {
    /// Whether two proposers have the same key and preferences.
    pub fn same(&self, other: &Proposer) -> (same: bool)
        ensures
            same == (*self == *other),
    {
        bytes_equal(&self.public_key, &other.public_key) && bytes_equal(
            &self.fee_recipient,
            &other.fee_recipient,
        ) && self.gas_limit == other.gas_limit
    }
}

/// One line of a relay's schedule: the proposer it expects in a slot.
#[derive(Clone, Copy, Debug, PartialEq, Eq)]
pub struct ProposerSchedule {
    pub slot: Slot,
    pub proposer: Proposer,
}

/// `relays` with `relay` added at the end, unless it is there already.
pub open spec fn with_relay(relays: Seq<RelayIndex>, relay: RelayIndex) -> Seq<RelayIndex> {
    if relays.contains(relay) {
        relays
    } else {
        relays.push(relay)
    }
}

/// A set of relays, in the order they were added.
#[derive(Debug, PartialEq, Eq)]
pub struct RelaySet {
    indices: Vec<RelayIndex>,
}

impl View for RelaySet {
    type V = Seq<RelayIndex>;

    closed spec fn view(&self) -> Seq<RelayIndex> {
        self.indices@
    }
}

impl Clone for RelaySet {
    fn clone(&self) -> (copy: Self)
        ensures
            copy@ == self@,
    {
        proof {
            use_type_invariant(self);
        }
        RelaySet { indices: self.indices.clone() }
    }
}

impl RelaySet {
    /// No relay occurs twice.
    #[verifier::type_invariant]
    spec fn distinct(&self) -> bool {
        self.indices@.no_duplicates()
    }

    /// The empty set.
    pub fn new() -> (set: Self)
        ensures
            set@ == Seq::<RelayIndex>::empty(),
    {
        RelaySet { indices: Vec::new() }
    }

    /// How many relays the set holds. No relay is counted twice.
    pub fn len(&self) -> (len: usize)
        ensures
            len == self@.len(),
            self@.no_duplicates(),
    {
        proof {
            use_type_invariant(self);
        }
        self.indices.len()
    }

    /// The relay at `position`, counting in the order of addition.
    pub fn get(&self, position: usize) -> (relay: Option<RelayIndex>)
        ensures
            relay == (if position < self@.len() {
                Some(self@[position as int])
            } else {
                None
            }),
    {
        if position < self.indices.len() {
            Some(self.indices[position])
        } else {
            None
        }
    }

    /// Whether `relay` is in the set.
    pub fn contains(&self, relay: RelayIndex) -> (found: bool)
        ensures
            found == self@.contains(relay),
    {
        let mut i: usize = 0;
        while i < self.indices.len()
            invariant
                i <= self.indices@.len(),
                forall|j: int| 0 <= j < i ==> self.indices@[j] != relay,
            decreases self.indices@.len() - i,
        {
            if self.indices[i] == relay {
                return true;
            }
            i += 1;
        }
        false
    }

    /// Adds `relay`; says whether it was new.
    pub fn insert(&mut self, relay: RelayIndex) -> (is_new: bool)
        ensures
            final(self)@ == with_relay(old(self)@, relay),
            is_new == !old(self)@.contains(relay),
    {
        proof {
            use_type_invariant(&*self);
        }
        if self.contains(relay) {
            false
        } else {
            // The list is replaced, not pushed to in place: the set must
            // hold no relay twice at every moment its field is borrowed.
            let mut indices = self.indices.clone();
            indices.push(relay);
            self.indices = indices;
            true
        }
    }

    /// The relays, in the order of addition.
    pub fn to_vec(&self) -> (relays: Vec<RelayIndex>)
        ensures
            relays@ == self@,
    {
        self.indices.clone()
    }
}

/// A proposer and the relays that expect it, as the schedule holds them.
#[derive(Debug, PartialEq, Eq)]
pub struct Proposal {
    pub proposer: Proposer,
    pub relays: RelaySet,
}

/// What a [`Proposal`] stands for.
pub struct ProposalView {
    pub proposer: Proposer,
    pub relays: Seq<RelayIndex>,
}

impl View for Proposal {
    type V = ProposalView;

    open spec fn view(&self) -> ProposalView {
        ProposalView { proposer: self.proposer, relays: self.relays@ }
    }
}

impl Clone for Proposal {
    fn clone(&self) -> (copy: Self)
        ensures
            copy@ == self@,
    {
        Proposal { proposer: self.proposer, relays: self.relays.clone() }
    }
}

/// Whether some proposal of `proposals` is for `proposer`.
pub open spec fn names_proposer(proposals: Seq<ProposalView>, proposer: Proposer) -> bool {
    exists|i: int| 0 <= i < proposals.len() && (#[trigger] proposals[i]).proposer == proposer
}

/// Proposers are listed once each, and each with at least one relay, none
/// of them twice.
pub open spec fn proposals_wf(proposals: Seq<ProposalView>) -> bool {
    &&& forall|i: int, j: int|
        0 <= i < j < proposals.len() ==> (#[trigger] proposals[i]).proposer != (
        #[trigger] proposals[j]).proposer
    &&& forall|i: int|
        0 <= i < proposals.len() ==> (#[trigger] proposals[i]).relays.no_duplicates()
            && proposals[i].relays.len() > 0
}

/// The proposals of a slot after `relay` reported `proposer` for it: the
/// relay joins the proposer's relays, and a proposer not seen before is
/// listed last.
pub open spec fn merge_assignment(
    proposals: Seq<ProposalView>,
    proposer: Proposer,
    relay: RelayIndex,
) -> Seq<ProposalView> {
    if names_proposer(proposals, proposer) {
        Seq::new(
            proposals.len(),
            |i: int|
                if proposals[i].proposer == proposer {
                    ProposalView { proposer, relays: with_relay(proposals[i].relays, relay) }
                } else {
                    proposals[i]
                },
        )
    } else {
        proposals.push(ProposalView { proposer, relays: seq![relay] })
    }
}

/// Merging keeps a slot's proposals well formed.
pub proof fn lemma_merge_assignment_wf(
    proposals: Seq<ProposalView>,
    proposer: Proposer,
    relay: RelayIndex,
)
    requires
        proposals_wf(proposals),
    ensures
        proposals_wf(merge_assignment(proposals, proposer, relay)),
        names_proposer(merge_assignment(proposals, proposer, relay), proposer),
{
    let merged = merge_assignment(proposals, proposer, relay);
    if names_proposer(proposals, proposer) {
        let i = choose|i: int| 0 <= i < proposals.len() && (#[trigger] proposals[i]).proposer == proposer;
        assert(merged[i].proposer == proposer);
        assert forall|a: int, b: int| 0 <= a < b < merged.len() implies (#[trigger] merged[a]).proposer
            != (#[trigger] merged[b]).proposer by {
            assert(merged[a].proposer == proposals[a].proposer);
            assert(merged[b].proposer == proposals[b].proposer);
        }
        assert forall|a: int| 0 <= a < merged.len() implies (#[trigger] merged[a]).relays.no_duplicates()
            && merged[a].relays.len() > 0 by {
            let before = proposals[a].relays;
            assert(before.no_duplicates() && before.len() > 0);
        }
    } else {
        let last = proposals.len() as int;
        assert(merged[last].proposer == proposer);
        assert forall|a: int, b: int| 0 <= a < b < merged.len() implies (#[trigger] merged[a]).proposer
            != (#[trigger] merged[b]).proposer by {
            if b < last {
                assert(merged[a] == proposals[a]);
                assert(merged[b] == proposals[b]);
            } else {
                assert(merged[a] == proposals[a]);
            }
        }
        assert forall|a: int| 0 <= a < merged.len() implies (#[trigger] merged[a]).relays.no_duplicates()
            && merged[a].relays.len() > 0 by {
            if a < last {
                assert(merged[a] == proposals[a]);
            } else {
                assert(merged[a].relays =~= seq![relay]);
            }
        }
    }
}

/// The proposers known for one slot, each with its relays, in the order
/// the proposers were first reported.
#[derive(Debug, PartialEq, Eq)]
pub struct Proposals {
    entries: Vec<Proposal>,
}

impl View for Proposals {
    type V = Seq<ProposalView>;

    closed spec fn view(&self) -> Seq<ProposalView> {
        self.entries@.map_values(|proposal: Proposal| proposal@)
    }
}

impl Clone for Proposals {
    fn clone(&self) -> (copy: Self)
        ensures
            copy@ == self@,
    {
        let mut entries: Vec<Proposal> = Vec::new();
        let mut i: usize = 0;
        while i < self.entries.len()
            invariant
                i <= self.entries@.len(),
                entries@.len() == i,
                forall|j: int| 0 <= j < i ==> (#[trigger] entries@[j])@ == self.entries@[j]@,
            decreases self.entries@.len() - i,
        {
            entries.push(self.entries[i].clone());
            i += 1;
        }
        let copy = Proposals { entries };
        assert(copy@ =~= self@);
        copy
    }
}

impl Proposals {
    /// See [`proposals_wf`].
    pub open spec fn wf(&self) -> bool {
        proposals_wf(self@)
    }

    /// No proposals.
    pub fn new() -> (proposals: Self)
        ensures
            proposals@ == Seq::<ProposalView>::empty(),
            proposals.wf(),
    {
        let proposals = Proposals { entries: Vec::new() };
        assert(proposals@ =~= Seq::<ProposalView>::empty());
        proposals
    }

    /// How many proposers are listed.
    pub fn len(&self) -> (len: usize)
        ensures
            len == self@.len(),
    {
        self.entries.len()
    }

    /// The proposal at `position`, counting in the order of first report.
    pub fn get(&self, position: usize) -> (proposal: Option<&Proposal>)
        ensures
            match proposal {
                Some(proposal) => position < self@.len() && proposal@ == self@[position as int],
                None => position >= self@.len(),
            },
    {
        if position < self.entries.len() {
            Some(&self.entries[position])
        } else {
            None
        }
    }

    /// Records that `relay` reported `proposer`.
    pub fn merge(&mut self, proposer: Proposer, relay: RelayIndex)
        ensures
            final(self)@ == merge_assignment(old(self)@, proposer, relay),
    {
        let ghost before = self@;
        let mut found = false;
        let mut i: usize = 0;
        while i < self.entries.len()
            invariant
                i <= self.entries@.len(),
                self@.len() == before.len(),
                found == exists|j: int| 0 <= j < i && (#[trigger] before[j]).proposer == proposer,
                forall|j: int|
                    0 <= j < i ==> #[trigger] self@[j] == (if before[j].proposer == proposer {
                        ProposalView { proposer, relays: with_relay(before[j].relays, relay) }
                    } else {
                        before[j]
                    }),
                forall|j: int| i <= j < before.len() ==> #[trigger] self@[j] == before[j],
            decreases self.entries@.len() - i,
        {
            let ghost current = self@;
            if self.entries[i].proposer.same(&proposer) {
                let mut relays = self.entries[i].relays.clone();
                relays.insert(relay);
                self.entries.set(i, Proposal { proposer, relays });
                found = true;
            }
            assert forall|j: int| 0 <= j < before.len() && j != i implies #[trigger] self@[j]
                == current[j] by {}
            assert(before[i as int] == current[i as int]);
            i += 1;
        }
        if found {
            assert(names_proposer(before, proposer));
            assert(self@ =~= merge_assignment(before, proposer, relay));
        } else {
            assert(!names_proposer(before, proposer));
            assert(self@ =~= before);
            let mut relays = RelaySet::new();
            relays.insert(relay);
            assert(relays@ =~= seq![relay]);
            self.entries.push(Proposal { proposer, relays });
            assert(self@ =~= before.push(ProposalView { proposer, relays: seq![relay] }));
        }
    }
}

/// The proposals that `schedule` holds for `slot`: none where it has no
/// entry.
pub open spec fn proposals_at(schedule: Map<Slot, Seq<ProposalView>>, slot: Slot) -> Seq<
    ProposalView,
> {
    if schedule.contains_key(slot) {
        schedule[slot]
    } else {
        Seq::empty()
    }
}

/// `schedule` after `relay` reported `entry`.
pub open spec fn assign(
    schedule: Map<Slot, Seq<ProposalView>>,
    relay: RelayIndex,
    entry: ProposerSchedule,
) -> Map<Slot, Seq<ProposalView>> {
    schedule.insert(
        entry.slot,
        merge_assignment(proposals_at(schedule, entry.slot), entry.proposer, relay),
    )
}

/// `schedule` after `relay` reported `entries`, one after the other.
pub open spec fn assign_all(
    schedule: Map<Slot, Seq<ProposalView>>,
    relay: RelayIndex,
    entries: Seq<ProposerSchedule>,
) -> Map<Slot, Seq<ProposalView>>
    decreases entries.len(),
{
    if entries.len() == 0 {
        schedule
    } else {
        assign(assign_all(schedule, relay, entries.drop_last()), relay, entries.last())
    }
}

/// Every slot's proposals are well formed.
pub open spec fn schedule_wf(schedule: Map<Slot, Seq<ProposalView>>) -> bool {
    forall|slot: Slot| #[trigger] schedule.contains_key(slot) ==> proposals_wf(schedule[slot])
}

/// Every relay that `proposals` names is one of the first `relay_count`.
pub open spec fn proposals_within(proposals: Seq<ProposalView>, relay_count: int) -> bool {
    forall|i: int, j: int|
        0 <= i < proposals.len() && 0 <= j < proposals[i].relays.len() ==> (
        #[trigger] proposals[i].relays[j]) < relay_count
}

/// Every relay that `schedule` names is one of the first `relay_count`.
pub open spec fn schedule_within(schedule: Map<Slot, Seq<ProposalView>>, relay_count: int) -> bool {
    forall|slot: Slot| #[trigger]
        schedule.contains_key(slot) ==> proposals_within(schedule[slot], relay_count)
}

/// Merging the report of a configured relay names configured relays only.
pub proof fn lemma_merge_assignment_within(
    proposals: Seq<ProposalView>,
    proposer: Proposer,
    relay: RelayIndex,
    relay_count: int,
)
    requires
        proposals_within(proposals, relay_count),
        relay < relay_count,
    ensures
        proposals_within(merge_assignment(proposals, proposer, relay), relay_count),
{
    let merged = merge_assignment(proposals, proposer, relay);
    assert forall|i: int, j: int|
        0 <= i < merged.len() && 0 <= j < merged[i].relays.len() implies (
    #[trigger] merged[i].relays[j]) < relay_count by {
        if i < proposals.len() {
            let before = proposals[i].relays;
            if j < before.len() {
                assert(proposals[i].relays[j] < relay_count);
            }
        }
    }
}

/// A schedule stays well formed, and within the configured relays, when
/// the report of a configured relay is merged into it.
pub proof fn lemma_assign_all_preserves(
    schedule: Map<Slot, Seq<ProposalView>>,
    relay: RelayIndex,
    entries: Seq<ProposerSchedule>,
    relay_count: int,
)
    ensures
        schedule_wf(schedule) ==> schedule_wf(assign_all(schedule, relay, entries)),
        schedule_wf(schedule) && schedule_within(schedule, relay_count) && relay < relay_count
            ==> schedule_within(assign_all(schedule, relay, entries), relay_count),
    decreases entries.len(),
{
    if entries.len() > 0 {
        lemma_assign_all_preserves(schedule, relay, entries.drop_last(), relay_count);
        let before = assign_all(schedule, relay, entries.drop_last());
        let entry = entries.last();
        let after = assign(before, relay, entry);
        if schedule_wf(schedule) {
            if before.contains_key(entry.slot) {
                assert(proposals_wf(before[entry.slot]));
            }
            lemma_merge_assignment_wf(proposals_at(before, entry.slot), entry.proposer, relay);
            assert forall|slot: Slot| #[trigger] after.contains_key(slot) implies proposals_wf(
                after[slot],
            ) by {
                if slot != entry.slot {
                    assert(before.contains_key(slot));
                }
            }
            if schedule_within(schedule, relay_count) && relay < relay_count {
                if before.contains_key(entry.slot) {
                    assert(proposals_within(before[entry.slot], relay_count));
                }
                lemma_merge_assignment_within(
                    proposals_at(before, entry.slot),
                    entry.proposer,
                    relay,
                    relay_count,
                );
                assert forall|slot: Slot| #[trigger]
                    after.contains_key(slot) implies proposals_within(after[slot], relay_count) by {
                    if slot != entry.slot {
                        assert(before.contains_key(slot));
                    }
                }
            }
        }
    }
}

/// Whether `proposals` lists `relay` among the relays of `proposer`.
pub open spec fn lists(proposals: Seq<ProposalView>, proposer: Proposer, relay: RelayIndex) -> bool {
    exists|i: int|
        0 <= i < proposals.len() && (#[trigger] proposals[i]).proposer == proposer
            && proposals[i].relays.contains(relay)
}

/// Whether `relay` reported `proposer` for `slot`, as far as `schedule`
/// knows.
pub open spec fn assigned(
    schedule: Map<Slot, Seq<ProposalView>>,
    slot: Slot,
    proposer: Proposer,
    relay: RelayIndex,
) -> bool {
    lists(proposals_at(schedule, slot), proposer, relay)
}

/// Merging one report adds that report to what a slot's proposals list,
/// and nothing else.
pub proof fn lemma_merge_assignment_lists(
    proposals: Seq<ProposalView>,
    proposer: Proposer,
    relay: RelayIndex,
    other: Proposer,
    other_relay: RelayIndex,
)
    ensures
        lists(merge_assignment(proposals, proposer, relay), other, other_relay) <==> lists(
            proposals,
            other,
            other_relay,
        ) || (other == proposer && other_relay == relay),
{
    let merged = merge_assignment(proposals, proposer, relay);
    if lists(merged, other, other_relay) {
        let i = choose|i: int|
            0 <= i < merged.len() && (#[trigger] merged[i]).proposer == other
                && merged[i].relays.contains(other_relay);
        if !(other == proposer && other_relay == relay) {
            if i < proposals.len() {
                assert(proposals[i].proposer == other);
                if proposals[i].proposer == proposer && names_proposer(proposals, proposer) {
                    let before = proposals[i].relays;
                    let j = choose|j: int|
                        0 <= j < merged[i].relays.len() && merged[i].relays[j] == other_relay;
                    if !before.contains(relay) && j == before.len() {
                        assert(merged[i].relays[j] == relay);
                    }
                    assert(before.contains(other_relay));
                }
                assert(proposals[i].relays.contains(other_relay));
            } else {
                assert(merged[i].relays =~= seq![relay]);
                assert(merged[i].relays[0] == relay);
            }
        }
    }
    if lists(proposals, other, other_relay) {
        let i = choose|i: int|
            0 <= i < proposals.len() && (#[trigger] proposals[i]).proposer == other
                && proposals[i].relays.contains(other_relay);
        let before = proposals[i].relays;
        let j = choose|j: int| 0 <= j < before.len() && before[j] == other_relay;
        if names_proposer(proposals, proposer) {
            if other == proposer {
                assert(with_relay(before, relay)[j] == other_relay);
            }
            assert(merged[i].proposer == other);
            assert(merged[i].relays.contains(other_relay));
        } else {
            assert(merged[i] == proposals[i]);
        }
    }
    if other == proposer && other_relay == relay {
        if names_proposer(proposals, proposer) {
            let i = choose|i: int|
                0 <= i < proposals.len() && (#[trigger] proposals[i]).proposer == proposer;
            let before = proposals[i].relays;
            if before.contains(relay) {
                assert(merged[i].relays == before);
            } else {
                assert(merged[i].relays[before.len() as int] == relay);
            }
            assert(merged[i].proposer == proposer);
            assert(merged[i].relays.contains(relay));
        } else {
            let last = proposals.len() as int;
            assert(merged[last].proposer == proposer);
            assert(merged[last].relays[0] == relay);
            assert(merged[last].relays.contains(relay));
        }
    }
}

/// Merging the report of a relay adds that report to what the schedule
/// knows, and nothing else.
pub proof fn lemma_assign_all_assigns(
    schedule: Map<Slot, Seq<ProposalView>>,
    relay: RelayIndex,
    entries: Seq<ProposerSchedule>,
    slot: Slot,
    proposer: Proposer,
    other_relay: RelayIndex,
)
    ensures
        assigned(assign_all(schedule, relay, entries), slot, proposer, other_relay) <==> assigned(
            schedule,
            slot,
            proposer,
            other_relay,
        ) || (other_relay == relay && entries.contains(ProposerSchedule { slot, proposer })),
    decreases entries.len(),
{
    let reported = ProposerSchedule { slot, proposer };
    if entries.len() > 0 {
        let earlier = entries.drop_last();
        let entry = entries.last();
        let before = assign_all(schedule, relay, earlier);
        lemma_assign_all_assigns(schedule, relay, earlier, slot, proposer, other_relay);
        if slot == entry.slot {
            lemma_merge_assignment_lists(
                proposals_at(before, entry.slot),
                entry.proposer,
                relay,
                proposer,
                other_relay,
            );
        }
        if earlier.contains(reported) {
            let k = choose|k: int| 0 <= k < earlier.len() && earlier[k] == reported;
            assert(entries[k] == reported);
        }
        if entries.contains(reported) {
            let k = choose|k: int| 0 <= k < entries.len() && entries[k] == reported;
            if k < earlier.len() {
                assert(earlier[k] == reported);
            }
        }
        if entry == reported {
            assert(entries[entries.len() - 1] == reported);
        }
    }
}

/// The schedule of proposers by slot, reconciled over all relays.
pub struct AuctionSchedule {
    schedule: HashMap<Slot, Proposals>,
}

impl View for AuctionSchedule {
    type V = Map<Slot, Seq<ProposalView>>;

    closed spec fn view(&self) -> Map<Slot, Seq<ProposalView>> {
        self.schedule@.map_values(|proposals: Proposals| proposals@)
    }
}

impl AuctionSchedule {
    /// See [`schedule_wf`].
    pub open spec fn wf(&self) -> bool {
        schedule_wf(self@)
    }

    /// A schedule that knows no proposer.
    pub fn new() -> (schedule: Self)
        ensures
            schedule@ == Map::<Slot, Seq<ProposalView>>::empty(),
            schedule.wf(),
    {
        let schedule = AuctionSchedule { schedule: HashMap::new() };
        assert(schedule@ =~= Map::<Slot, Seq<ProposalView>>::empty());
        schedule
    }

    /// Drops what is known of the slots before `retain_slot`.
    pub fn clear(&mut self, retain_slot: Slot)
        ensures
            final(self)@ == retained(old(self)@, retain_slot as int),
            old(self).wf() ==> final(self).wf(),
    {
        retain_keys_from(&mut self.schedule, retain_slot);
        assert(self@ =~= retained(old(self)@, retain_slot as int));
    }

    /// Drops everything.
    pub fn clear_all(&mut self)
        ensures
            final(self)@ == Map::<Slot, Seq<ProposalView>>::empty(),
            final(self).wf(),
    {
        self.schedule.clear();
        assert(self@ =~= Map::<Slot, Seq<ProposalView>>::empty());
    }

    /// The proposers known for `slot`, if any was reported.
    pub fn get_matching_proposals(&self, slot: Slot) -> (proposals: Option<&Proposals>)
        ensures
            match proposals {
                Some(proposals) => self@.contains_key(slot) && proposals@ == self@[slot],
                None => !self@.contains_key(slot),
            },
    {
        self.schedule.get(&slot)
    }

    /// Merges the schedule that the relay at index `relay` reported, and
    /// returns the slots it spoke of, in its order.
    pub fn process(&mut self, relay: RelayIndex, schedule: &Vec<ProposerSchedule>) -> (slots: Vec<
        Slot,
    >)
        ensures
            final(self)@ == assign_all(old(self)@, relay, schedule@),
            slots@ == schedule@.map_values(|entry: ProposerSchedule| entry.slot),
            old(self).wf() ==> final(self).wf(),
    {
        let mut slots: Vec<Slot> = Vec::new();
        let mut i: usize = 0;
        while i < schedule.len()
            invariant
                i <= schedule@.len(),
                self@ == assign_all(old(self)@, relay, schedule@.take(i as int)),
                slots@ == schedule@.take(i as int).map_values(|entry: ProposerSchedule| entry.slot),
            decreases schedule@.len() - i,
        {
            let entry = schedule[i];
            let ghost before = self@;
            let mut proposals = match self.schedule.remove(&entry.slot) {
                Some(proposals) => proposals,
                None => Proposals::new(),
            };
            assert(proposals@ == proposals_at(before, entry.slot));
            proposals.merge(entry.proposer, relay);
            self.schedule.insert(entry.slot, proposals);
            slots.push(entry.slot);
            proof {
                assert(self@ =~= assign(before, relay, entry));
                let next = schedule@.take(i + 1);
                assert(next.drop_last() =~= schedule@.take(i as int));
                assert(next.last() == entry);
                assert(slots@ =~= next.map_values(|entry: ProposerSchedule| entry.slot));
            }
            i += 1;
        }
        proof {
            assert(schedule@.take(i as int) =~= schedule@);
            lemma_assign_all_preserves(old(self)@, relay, schedule@, 0);
        }
        slots
    }
}

} // verus!
