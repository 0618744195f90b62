//! An auction: one proposer's build for one slot, and the relays that the
//! bid for it goes to.

use vstd::prelude::*;

use crate::auction_schedule::{ProposalView, Proposals, Proposer, RelayIndex, RelaySet};
use crate::clock::Slot;
use crate::payload::{BuilderPayloadBuilderAttributes, PayloadId, ProposalAttributes};
use crate::submission::Error;

verus! {

/// Everything that is known of an auction when it opens. It does not
/// change afterwards.
#[derive(Debug, PartialEq, Eq)]
pub struct AuctionContext {
    pub slot: Slot,
    /// The attributes of the build, with the proposer's preferences
    /// attached.
    pub attributes: BuilderPayloadBuilderAttributes,
    pub proposer: Proposer,
    /// The relays that must receive the bid.
    pub relays: RelaySet,
}

/// What an [`AuctionContext`] stands for.
pub struct AuctionView {
    pub slot: Slot,
    pub attributes: BuilderPayloadBuilderAttributes,
    pub proposer: Proposer,
    pub relays: Seq<RelayIndex>,
}

impl View for AuctionContext {
    type V = AuctionView;

    open spec fn view(&self) -> AuctionView {
        AuctionView {
            slot: self.slot,
            attributes: self.attributes,
            proposer: self.proposer,
            relays: self.relays@,
        }
    }
}

impl Clone for AuctionContext {
    fn clone(&self) -> (copy: Self)
        ensures
            copy@ == self@,
    {
        AuctionContext {
            slot: self.slot,
            attributes: self.attributes,
            proposer: self.proposer,
            relays: self.relays.clone(),
        }
    }
}

impl AuctionView {
    /// The identifier under which the auction is kept.
    pub open spec fn payload_id(self) -> PayloadId {
        self.attributes.payload_id
    }

    /// Every relay of the auction is one of the first `relay_count`, and
    /// none is named twice.
    pub open spec fn relays_within(self, relay_count: int) -> bool {
        &&& self.relays.no_duplicates()
        &&& forall|i: int| 0 <= i < self.relays.len() ==> #[trigger] self.relays[i] < relay_count
    }
}

/// What a sequence of auction contexts stands for.
pub open spec fn auction_views(auctions: Seq<AuctionContext>) -> Seq<AuctionView> {
    auctions.map_values(|auction: AuctionContext| auction@)
}

/// What a sequence of auction contexts stands for, where there is one.
pub open spec fn auctions_or_error(result: Result<Vec<AuctionContext>, Error>) -> Result<
    Seq<AuctionView>,
    Error,
> {
    match result {
        Ok(auctions) => Ok(auction_views(auctions@)),
        Err(error) => Err(error),
    }
}

/// The preferences that `proposer` registered.
pub open spec fn preferences_of(proposer: Proposer) -> ProposalAttributes {
    ProposalAttributes {
        proposer_gas_limit: proposer.gas_limit,
        proposer_fee_recipient: proposer.fee_recipient,
    }
}

/// The auction that `attributes` opens for one proposal of a slot.
pub open spec fn auction_for(
    slot: Slot,
    attributes: BuilderPayloadBuilderAttributes,
    proposal: ProposalView,
) -> AuctionView {
    AuctionView {
        slot,
        attributes: attributes.with_proposal(preferences_of(proposal.proposer)),
        proposer: proposal.proposer,
        relays: proposal.relays,
    }
}

/// The auctions that `attributes` opens for a slot: one for each proposal,
/// in their order.
pub open spec fn auctions_for(
    slot: Slot,
    attributes: BuilderPayloadBuilderAttributes,
    proposals: Seq<ProposalView>,
) -> Seq<AuctionView> {
    Seq::new(proposals.len(), |i: int| auction_for(slot, attributes, proposals[i]))
}

/// The attributes of the build for `proposer`: `attributes` with the
/// proposer's gas limit and fee recipient attached.
pub fn make_attributes_for_proposer(
    attributes: &BuilderPayloadBuilderAttributes,
    proposer: &Proposer,
) -> (for_proposer: BuilderPayloadBuilderAttributes)
    ensures
        for_proposer == attributes.with_proposal(preferences_of(*proposer)),
{
    let proposal = ProposalAttributes {
        proposer_gas_limit: proposer.gas_limit,
        proposer_fee_recipient: proposer.fee_recipient,
    };
    let mut attributes = *attributes;
    attributes.attach_proposal(proposal);
    attributes
}

/// Opens one auction for each proposer that is scheduled for `slot`.
pub fn open_auctions_for(
    slot: Slot,
    attributes: &BuilderPayloadBuilderAttributes,
    proposals: &Proposals,
) -> (auctions: Vec<AuctionContext>)
    ensures
        auction_views(auctions@) == auctions_for(slot, *attributes, proposals@),
{
    let mut auctions: Vec<AuctionContext> = Vec::new();
    let mut i: usize = 0;
    while i < proposals.len()
        invariant
            i <= proposals@.len(),
            auctions@.len() == i,
            forall|j: int|
                0 <= j < i ==> (#[trigger] auctions@[j])@ == auction_for(
                    slot,
                    *attributes,
                    proposals@[j],
                ),
        decreases proposals@.len() - i,
    {
        match proposals.get(i) {
            Some(proposal) => {
                auctions.push(
                    AuctionContext {
                        slot,
                        attributes: make_attributes_for_proposer(attributes, &proposal.proposer),
                        proposer: proposal.proposer,
                        relays: proposal.relays.clone(),
                    },
                );
            },
            None => {},
        }
        i += 1;
    }
    assert(auction_views(auctions@) =~= auctions_for(slot, *attributes, proposals@));
    auctions
}

} // verus!
