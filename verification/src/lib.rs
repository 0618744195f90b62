//! Orchestration core of a block builder that competes in per-slot
//! proposal auctions run by relays.
//!
//! The auctioneer learns which proposers registered with which relays,
//! proposes one build per proposer when payload attributes arrive, tracks
//! the auctions that result, and prepares the signed bid that goes to the
//! relays of an auction once the bidder dispatches it.
//!
//! Everything here is a decision: a function from the auctioneer's state
//! and an event to the next state and what to do about it. Talking to
//! relays, to the block-building engine, to the bidder and to the signer is
//! left to the caller, which hands their answers back as plain values.

pub mod primitives;
pub mod clock;
pub mod digest;
pub mod payload;
pub mod tables;
pub mod auction_schedule;
pub mod auction;
pub mod submission;
pub mod bidder;
pub mod engine;
pub mod state;
pub mod service;
pub mod laws;
