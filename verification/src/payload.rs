//! Payload attributes, the identifier derived from them, and what the
//! engine builds from them.

use vstd::prelude::*;

use crate::digest::{sha256, sha256_digest};
use crate::primitives::{be_bytes, from_be_bytes, u64_from_be_prefix, u64_to_be_bytes};
use crate::primitives::{Address, Fork, Hash32, U256};

verus! {

/// Identifies one build attempt. It is derived from the attributes of the
/// build, so equal attributes share an identifier.
pub type PayloadId = u64;

/// What a proposer asks of the block built for its slot.
#[derive(Clone, Copy, Debug, PartialEq, Eq)]
pub struct ProposalAttributes {
    pub proposer_gas_limit: u64,
    pub proposer_fee_recipient: Address,
}

/// The attributes of a build: what the consensus layer announced, and the
/// preferences of the proposer the build is for, once they are attached.
#[derive(Clone, Copy, Debug, PartialEq, Eq)]
pub struct BuilderPayloadBuilderAttributes {
    /// Hash of the block to build on.
    pub parent: Hash32,
    /// Timestamp of the block to build.
    pub timestamp: u64,
    /// Identifier of this attribute set.
    pub payload_id: PayloadId,
    /// Preferences of the proposer, absent until attached.
    pub proposal: Option<ProposalAttributes>,
}

/// A payload the engine built for one attribute set.
#[derive(Clone, Copy, Debug, PartialEq, Eq)]
pub struct BuiltPayload {
    /// Identifier of the attribute set the payload was built for.
    pub id: PayloadId,
    /// Fork whose rules the payload follows.
    pub fork: Fork,
    pub block_hash: Hash32,
    pub gas_limit: u64,
    pub gas_used: u64,
    /// What the block pays the builder.
    pub fees: U256,
}

/// The bytes that are hashed to tell a proposer's build from the build it
/// was derived from: the identifier, the gas limit and the fee recipient.
pub open spec fn proposal_preimage(payload_id: PayloadId, proposal: ProposalAttributes) -> Seq<u8> {
    be_bytes(payload_id) + be_bytes(proposal.proposer_gas_limit) + proposal.proposer_fee_recipient@
}

/// The identifier of the attribute set that `payload_id` names, once
/// `proposal` is attached: the leading eight bytes of the digest of
/// [`proposal_preimage`].
pub open spec fn mixed_payload_id(payload_id: PayloadId, proposal: ProposalAttributes) -> PayloadId {
    from_be_bytes(sha256(proposal_preimage(payload_id, proposal)))
}

/// Appends `bytes` to `buffer`.
fn append_bytes<const N: usize>(buffer: &mut Vec<u8>, bytes: &[u8; N])
    ensures
        final(buffer)@ == old(buffer)@ + bytes@,
{
    let mut i: usize = 0;
    while i < N
        invariant
            i <= N,
            buffer@ == old(buffer)@ + bytes@.take(i as int),
        decreases N - i,
    {
        buffer.push(bytes[i]);
        i += 1;
    }
}

/// Derives the identifier of a proposer's build from the identifier of
/// the attributes it starts from.
pub fn mix_proposal_into_payload_id(payload_id: PayloadId, proposal: &ProposalAttributes) -> (mixed:
    PayloadId)
    ensures
        mixed == mixed_payload_id(payload_id, *proposal),
{
    let mut preimage: Vec<u8> = Vec::new();
    append_bytes(&mut preimage, &u64_to_be_bytes(payload_id));
    append_bytes(&mut preimage, &u64_to_be_bytes(proposal.proposer_gas_limit));
    append_bytes(&mut preimage, &proposal.proposer_fee_recipient);
    assert(preimage@ =~= proposal_preimage(payload_id, *proposal));
    let digest = sha256_digest(preimage.as_slice());
    u64_from_be_prefix(&digest)
}

impl BuilderPayloadBuilderAttributes {
    /// These attributes with `proposal` attached. Attributes take the
    /// preferences of one proposer only: a second attachment changes
    /// nothing.
    pub open spec fn with_proposal(self, proposal: ProposalAttributes) -> Self {
        if self.proposal is Some {
            self
        } else {
            BuilderPayloadBuilderAttributes {
                parent: self.parent,
                timestamp: self.timestamp,
                payload_id: mixed_payload_id(self.payload_id, proposal),
                proposal: Some(proposal),
            }
        }
    }

    /// Attributes as the consensus layer announced them, for no proposer
    /// yet.
    pub fn new(parent: Hash32, timestamp: u64, payload_id: PayloadId) -> (attributes: Self)
        ensures
            attributes == (BuilderPayloadBuilderAttributes {
                parent,
                timestamp,
                payload_id,
                proposal: None,
            }),
    {
        BuilderPayloadBuilderAttributes { parent, timestamp, payload_id, proposal: None }
    }

    /// Attaches the preferences of a proposer, which changes the
    /// identifier.
    pub fn attach_proposal(&mut self, proposal: ProposalAttributes)
        ensures
            *final(self) == old(self).with_proposal(proposal),
    {
        if self.proposal.is_none() {
            self.payload_id = mix_proposal_into_payload_id(self.payload_id, &proposal);
            self.proposal = Some(proposal);
        }
    }

    /// The identifier of this attribute set.
    pub fn payload_id(&self) -> (id: PayloadId)
        ensures
            id == self.payload_id,
    {
        self.payload_id
    }

    /// The timestamp of the block to build.
    pub fn timestamp(&self) -> (timestamp: u64)
        ensures
            timestamp == self.timestamp,
    {
        self.timestamp
    }
}

} // verus!
