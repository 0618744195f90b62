//! Pruning of the tables that the auctioneer keeps.

use std::collections::HashMap;
use vstd::prelude::*;
use vstd::std_specs::iter::IteratorSpec;

use crate::auction::{AuctionContext, AuctionView};
use crate::clock::Slot;
use crate::payload::PayloadId;

verus! {

broadcast use vstd::std_specs::hash::group_hash_axioms;

/// A table keyed by slot, without the slots before `floor`.
pub open spec fn retained<V>(table: Map<Slot, V>, floor: int) -> Map<Slot, V> {
    table.restrict(Set::new(|slot: Slot| slot >= floor))
}

/// The auctions of `auctions` whose slot is not before `floor`.
pub open spec fn live_auctions(auctions: Map<PayloadId, AuctionView>, floor: int) -> Map<
    PayloadId,
    AuctionView,
> {
    Map::new(
        |id: PayloadId| auctions.contains_key(id) && auctions[id].slot >= floor,
        |id: PayloadId| auctions[id],
    )
}

/// What a table of auction contexts stands for.
pub open spec fn auction_table(table: Map<PayloadId, AuctionContext>) -> Map<PayloadId, AuctionView> {
    table.map_values(|auction: AuctionContext| auction@)
}

/// The keys of `table`, each once, in no particular order.
pub fn keys_of<V>(table: &HashMap<u64, V>) -> (keys: Vec<u64>)
    ensures
        keys@.to_set() == table@.dom(),
        keys@.no_duplicates(),
{
    let mut keys: Vec<u64> = Vec::new();
    let ghost all: Seq<u64> = table.keys().remaining().unref();
    for key in iter: table.keys()
        invariant
            keys@ == all.take(iter.index() as int),
            all == iter.seq().unref(),
    {
        keys.push(*key);
    }
    assert(keys@ == all);
    keys
}

/// Removes from `table` the entries whose key is below `floor`.
pub fn retain_keys_from<V>(table: &mut HashMap<u64, V>, floor: u64)
    ensures
        final(table)@ == retained(old(table)@, floor as int),
{
    let keys = keys_of(table);
    let ghost start = table@;
    let mut i: usize = 0;
    while i < keys.len()
        invariant
            i <= keys@.len(),
            keys@.to_set() == start.dom(),
            forall|key: u64| #[trigger]
                table@.dom().contains(key) ==> start.dom().contains(key) && table@[key]
                    == start[key],
            forall|key: u64| #[trigger]
                start.dom().contains(key) && key >= floor ==> table@.dom().contains(key),
            forall|j: int|
                0 <= j < i && #[trigger] keys@[j] < floor ==> !table@.dom().contains(keys@[j]),
        decreases keys@.len() - i,
    {
        let key = keys[i];
        let ghost before = table@;
        if key < floor {
            table.remove(&key);
            assert(table@ == before.remove(key));
        }
        i += 1;
    }
    assert forall|key: u64| #[trigger] table@.dom().contains(key) implies key >= floor by {
        assert(keys@.to_set().contains(key));
        let j = keys@.index_of(key);
        assert(keys@[j] == key);
    }
    assert(table@ =~= retained(start, floor as int));
}

/// Removes from `table` the auctions for a slot before `floor`.
pub fn retain_auctions_from(table: &mut HashMap<PayloadId, AuctionContext>, floor: Slot)
    ensures
        auction_table(final(table)@) == live_auctions(auction_table(old(table)@), floor as int),
{
    let ids = keys_of(table);
    let ghost start = table@;
    let mut i: usize = 0;
    while i < ids.len()
        invariant
            i <= ids@.len(),
            ids@.to_set() == start.dom(),
            forall|id: PayloadId| #[trigger]
                table@.dom().contains(id) ==> start.dom().contains(id) && table@[id] == start[id],
            forall|id: PayloadId| #[trigger]
                start.dom().contains(id) && start[id].slot >= floor ==> table@.dom().contains(id),
            forall|j: int|
                0 <= j < i && start[#[trigger] ids@[j]].slot < floor ==> !table@.dom().contains(
                    ids@[j],
                ),
        decreases ids@.len() - i,
    {
        let id = ids[i];
        let ghost before = table@;
        assert(ids@.to_set().contains(id));
        let stale = match table.get(&id) {
            Some(auction) => auction.slot < floor,
            None => false,
        };
        if stale {
            table.remove(&id);
            assert(table@ == before.remove(id));
        }
        i += 1;
    }
    assert forall|id: PayloadId| #[trigger] table@.dom().contains(id) implies start[id].slot
        >= floor by {
        assert(ids@.to_set().contains(id));
        let j = ids@.index_of(id);
        assert(ids@[j] == id);
    }
    assert(auction_table(table@) =~= live_auctions(auction_table(start), floor as int));
}

} // verus!
