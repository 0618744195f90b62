//! The bid that goes to the relays of an auction.

use vstd::prelude::*;

use crate::auction::{AuctionContext, AuctionView};
use crate::clock::Slot;
use crate::payload::{BuiltPayload, PayloadId};
use crate::primitives::{Address, BlsPublicKey, BlsSignature, Fork, Hash32, U256};

verus! {

/// Why the auctioneer could not act on what it was handed.
#[derive(Clone, Copy, Debug, PartialEq, Eq)]
pub enum Error {
    /// Payload attributes are stamped with a time that no slot holds.
    NoSlot,
    /// No auction is open for a payload.
    UnknownAuction(PayloadId),
    /// The signer did not sign the bid.
    Signing,
    /// A payload belongs to a fork for which there is no bid submission.
    UnsupportedFork(Fork),
}

/// The summary of a bid that a relay compares bids by.
#[derive(Clone, Copy, Debug, PartialEq, Eq)]
pub struct BidTrace {
    pub slot: Slot,
    pub parent_hash: Hash32,
    pub block_hash: Hash32,
    pub builder_public_key: BlsPublicKey,
    pub proposer_public_key: BlsPublicKey,
    pub proposer_fee_recipient: Address,
    pub gas_limit: u64,
    pub gas_used: u64,
    pub value: U256,
}

/// A signed bid, in the form of the fork that its payload belongs to. The
/// payload itself travels beside it, encoded as that fork prescribes.
#[derive(Clone, Copy, Debug, PartialEq, Eq)]
pub enum SignedBidSubmission {
    Bellatrix { message: BidTrace, signature: BlsSignature },
    Capella { message: BidTrace, signature: BlsSignature },
    Deneb { message: BidTrace, signature: BlsSignature },
}

impl SignedBidSubmission {
    /// The fork whose form the submission has.
    pub open spec fn fork(self) -> Fork {
        match self {
            SignedBidSubmission::Bellatrix { .. } => Fork::Bellatrix,
            SignedBidSubmission::Capella { .. } => Fork::Capella,
            SignedBidSubmission::Deneb { .. } => Fork::Deneb,
        }
    }

    /// The bid that was signed.
    pub open spec fn message(self) -> BidTrace {
        match self {
            SignedBidSubmission::Bellatrix { message, .. } => message,
            SignedBidSubmission::Capella { message, .. } => message,
            SignedBidSubmission::Deneb { message, .. } => message,
        }
    }

    /// The signature over the bid.
    pub open spec fn signature(self) -> BlsSignature {
        match self {
            SignedBidSubmission::Bellatrix { signature, .. } => signature,
            SignedBidSubmission::Capella { signature, .. } => signature,
            SignedBidSubmission::Deneb { signature, .. } => signature,
        }
    }
}

/// The bid for `payload` in `auction`, by the builder with `public_key`.
pub open spec fn bid_trace_of(
    payload: BuiltPayload,
    public_key: BlsPublicKey,
    auction: AuctionView,
) -> BidTrace {
    BidTrace {
        slot: auction.slot,
        parent_hash: auction.attributes.parent,
        block_hash: payload.block_hash,
        builder_public_key: public_key,
        proposer_public_key: auction.proposer.public_key,
        proposer_fee_recipient: auction.proposer.fee_recipient,
        gas_limit: payload.gas_limit,
        gas_used: payload.gas_used,
        value: payload.fees,
    }
}

/// The submission that carries `message` under `signature` for a payload
/// of `fork`. Only three forks have one.
pub open spec fn submission_for(fork: Fork, message: BidTrace, signature: BlsSignature) -> Result<
    SignedBidSubmission,
    Error,
> {
    match fork {
        Fork::Bellatrix => Ok(SignedBidSubmission::Bellatrix { message, signature }),
        Fork::Capella => Ok(SignedBidSubmission::Capella { message, signature }),
        Fork::Deneb => Ok(SignedBidSubmission::Deneb { message, signature }),
        other => Err(Error::UnsupportedFork(other)),
    }
}

/// What [`prepare_submission`] returns. A bid that was not signed is
/// reported before the fork is looked at.
pub open spec fn prepared(
    payload: BuiltPayload,
    signature: Option<BlsSignature>,
    public_key: BlsPublicKey,
    auction: AuctionView,
) -> Result<SignedBidSubmission, Error> {
    match signature {
        None => Err(Error::Signing),
        Some(signature) => submission_for(
            payload.fork,
            bid_trace_of(payload, public_key, auction),
            signature,
        ),
    }
}

/// Writes the bid for `payload`: the record that the builder signs.
pub fn make_bid_trace(
    payload: &BuiltPayload,
    public_key: &BlsPublicKey,
    auction_context: &AuctionContext,
) -> (message: BidTrace)
    ensures
        message == bid_trace_of(*payload, *public_key, auction_context@),
{
    BidTrace {
        slot: auction_context.slot,
        parent_hash: auction_context.attributes.parent,
        block_hash: payload.block_hash,
        builder_public_key: *public_key,
        proposer_public_key: auction_context.proposer.public_key,
        proposer_fee_recipient: auction_context.proposer.fee_recipient,
        gas_limit: payload.gas_limit,
        gas_used: payload.gas_used,
        value: payload.fees,
    }
}

/// Wraps the bid for `payload` and the signer's answer into the submission
/// of the payload's fork. `signature` is what the signer returned for the
/// record of [`make_bid_trace`]: `None` where it failed.
pub fn prepare_submission(
    payload: &BuiltPayload,
    signature: Option<BlsSignature>,
    public_key: &BlsPublicKey,
    auction_context: &AuctionContext,
) -> (submission: Result<SignedBidSubmission, Error>)
    ensures
        submission == prepared(*payload, signature, *public_key, auction_context@),
        submission matches Ok(signed) ==> signed.fork() == payload.fork,
{
    let message = make_bid_trace(payload, public_key, auction_context);
    let signature = match signature {
        Some(signature) => signature,
        None => {
            return Err(Error::Signing);
        },
    };
    match payload.fork {
        Fork::Bellatrix => Ok(SignedBidSubmission::Bellatrix { message, signature }),
        Fork::Capella => Ok(SignedBidSubmission::Capella { message, signature }),
        Fork::Deneb => Ok(SignedBidSubmission::Deneb { message, signature }),
        other => Err(Error::UnsupportedFork(other)),
    }
}

} // verus!
