//! Slots, epochs and the arithmetic that relates them to wall-clock time.

use vstd::prelude::*;

verus! {

/// A proposal slot: a fixed-duration unit of time with one proposer.
pub type Slot = u64;

/// A consecutive run of slots.
pub type Epoch = u64;

/// Proposer schedules are fetched anew whenever this many times the slot
/// number is a multiple of the epoch length: with `2`, at the start of an
/// epoch and half-way into it.
pub const PROPOSAL_SCHEDULE_INTERVAL: u64 = 2;

/// What the clock announces.
#[derive(Clone, Copy, Debug, PartialEq, Eq, Structural)]
pub enum ClockMessage {
    NewSlot(Slot),
    NewEpoch(Epoch),
}

/// The parameters of the chain that the auctioneer goes by.
#[derive(Clone, Copy, Debug, PartialEq, Eq, Structural)]
pub struct Context {
    pub slots_per_epoch: u64,
    pub seconds_per_slot: u64,
}

/// The slot that holds `timestamp`, for a chain that started at
/// `genesis_time` with slots of `seconds_per_slot` seconds.
pub open spec fn slot_at(timestamp: u64, genesis_time: u64, seconds_per_slot: u64) -> Option<Slot> {
    if timestamp < genesis_time || seconds_per_slot == 0 {
        None
    } else {
        Some(((timestamp - genesis_time) / (seconds_per_slot as int)) as u64)
    }
}

/// The first slot of `epoch`. It may lie beyond every slot number that
/// fits a `u64`.
pub open spec fn first_slot_of(epoch: Epoch, slots_per_epoch: u64) -> int {
    epoch * slots_per_epoch
}

/// Whether proposer schedules are due for a refresh at `slot`.
pub open spec fn refresh_due(slot: Slot, slots_per_epoch: u64) -> bool {
    (slot * PROPOSAL_SCHEDULE_INTERVAL) % (slots_per_epoch as int) == 0
}

/// Converts a timestamp to the slot that holds it. There is no such slot
/// before genesis, nor when slots have no duration.
pub fn convert_timestamp_to_slot(timestamp: u64, genesis_time: u64, seconds_per_slot: u64) -> (slot:
    Option<Slot>)
    ensures
        slot == slot_at(timestamp, genesis_time, seconds_per_slot),
{
    if timestamp < genesis_time || seconds_per_slot == 0 {
        None
    } else {
        Some((timestamp - genesis_time) / seconds_per_slot)
    }
}

/// Computes [`refresh_due`] without overflow.
pub fn is_refresh_due(slot: Slot, slots_per_epoch: u64) -> (due: bool)
    requires
        slots_per_epoch > 0,
    ensures
        due == refresh_due(slot, slots_per_epoch),
{
    let scaled: u128 = (slot as u128) * (PROPOSAL_SCHEDULE_INTERVAL as u128);
    scaled % (slots_per_epoch as u128) == 0
}

/// The first slot of `epoch`, where it fits a slot number.
pub fn first_slot_of_epoch(epoch: Epoch, slots_per_epoch: u64) -> (slot: Option<Slot>)
    ensures
        match slot {
            Some(slot) => slot == first_slot_of(epoch, slots_per_epoch),
            None => first_slot_of(epoch, slots_per_epoch) > u64::MAX,
        },
{
    epoch.checked_mul(slots_per_epoch)
}

} // verus!
