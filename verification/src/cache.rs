//! The store as it is written to and read from persistent storage.
//!
//! The library does not touch storage. It turns a store into the plain
//! list of its snapshots, which a caller serializes and writes, and it
//! turns such a list, as a caller read it, back into a store.

use vstd::prelude::*;
use crate::api::RateStore;
use crate::code_map::{distinct_codes, pairs_map, CodeMap};
use crate::models::{
    all_positive_finite, lemma_pairs_map_positive_finite, store_positive_finite, CacheItem, Rates,
    Snapshot, Timestamp,
};

verus! {

/// One snapshot as it is persisted: the base currency, its rates as pairs
/// of currency code and rate, and the time at which they were fetched.
#[derive(Debug, PartialEq, Eq)]
pub struct SavedItem {
    pub base: String,
    pub rates: Vec<(String, u64)>,
    pub timestamp: Timestamp,
}

/// The snapshot that a persisted item holds.
pub open spec fn saved_snapshot(item: SavedItem) -> Snapshot {
    Snapshot { rates: pairs_map(item.rates@), timestamp: item.timestamp }
}

/// Whether every rate of every item is positive and finite.
pub open spec fn saved_usable(items: Seq<SavedItem>) -> bool {
    forall|i: int| 0 <= i < items.len() ==> all_positive_finite((#[trigger] items[i]).rates@)
}

/// Whether no base currency has two items, and no item two rates for one
/// currency.
pub open spec fn saved_distinct(items: Seq<SavedItem>) -> bool {
    &&& forall|i: int, j: int|
        #![trigger items[i], items[j]]
        0 <= i < j < items.len() ==> items[i].base@ != items[j].base@
    &&& forall|i: int| 0 <= i < items.len() ==> distinct_codes((#[trigger] items[i]).rates@)
}

/// The store that a list of persisted items stands for. Of two items for
/// the same base currency the later one counts.
pub open spec fn saved_store(items: Seq<SavedItem>) -> Map<Seq<char>, Snapshot>
    decreases items.len(),
{
    if items.len() == 0 {
        Map::empty()
    } else {
        saved_store(items.drop_last()).insert(items.last().base@, saved_snapshot(items.last()))
    }
}

/// The store that loading yields. Without a document the store is empty;
/// so it is where the document holds a rate that is not positive and
/// finite.
pub open spec fn loaded_store(document: Option<Vec<SavedItem>>) -> Map<Seq<char>, Snapshot> {
    match document {
        Some(items) => if saved_usable(items@) {
            saved_store(items@)
        } else {
            Map::empty()
        },
        None => Map::empty(),
    }
}

/// A list of items that corresponds to a list of pairs, item by item,
/// stands for the same store.
proof fn lemma_saved_store_of_pairs(items: Seq<SavedItem>, pairs: Seq<(String, CacheItem)>)
    requires
        items.len() == pairs.len(),
        forall|i: int|
            0 <= i < items.len() ==> (#[trigger] items[i]).base@ == pairs[i].0@ && saved_snapshot(
                items[i],
            ) == pairs[i].1@,
    ensures
        saved_store(items) == pairs_map(pairs),
    decreases items.len(),
{
    if items.len() > 0 {
        let last = items.len() - 1;
        assert(items[last].base@ == pairs[last].0@);
        lemma_saved_store_of_pairs(items.drop_last(), pairs.drop_last());
    }
}

/// Usable items stand for a store of positive finite rates.
proof fn lemma_saved_store_positive_finite(items: Seq<SavedItem>)
    requires
        saved_usable(items),
    ensures
        store_positive_finite(saved_store(items)),
    decreases items.len(),
{
    if items.len() > 0 {
        let front = items.drop_last();
        assert(saved_usable(front)) by {
            assert forall|i: int| 0 <= i < front.len() implies all_positive_finite(
                (#[trigger] front[i]).rates@,
            ) by {
                assert(front[i] == items[i]);
            }
        }
        lemma_saved_store_positive_finite(front);
        assert(all_positive_finite(items[items.len() - 1].rates@));
        lemma_pairs_map_positive_finite(items.last().rates@);
    }
}

/// A copy of a list of rates.
fn copy_pairs(pairs: &[(String, u64)]) -> (copy: Vec<(String, u64)>)
    ensures
        copy@ == pairs@,
{
    let mut copy: Vec<(String, u64)> = Vec::new();
    let mut i: usize = 0;
    while i < pairs.len()
        invariant
            i <= pairs.len(),
            copy@ == pairs@.take(i as int),
        decreases pairs.len() - i,
    {
        copy.push((pairs[i].0.clone(), pairs[i].1));
        proof {
            assert(copy@ == pairs@.take(i + 1));
        }
        i += 1;
    }
    proof {
        assert(pairs@.take(i as int) == pairs@);
    }
    copy
}

impl Clone for SavedItem {
    /// An item for the same base currency with the same rates and the same
    /// fetch time.
    fn clone(&self) -> (copy: Self)
        ensures
            copy.base@ == self.base@,
            copy.rates@ == self.rates@,
            copy.timestamp == self.timestamp,
    {
        SavedItem {
            base: self.base.clone(),
            rates: copy_pairs(self.rates.as_slice()),
            timestamp: self.timestamp,
        }
    }
}

/// The store as a list of its snapshots, ready to be serialized: every
/// base currency once, with the rates and the fetch time of its snapshot.
/// Loading the list gives the store again.
pub fn save_cache(cache: &RateStore) -> (document: Vec<SavedItem>)
    ensures
        saved_usable(document@),
        saved_distinct(document@),
        saved_store(document@) == cache@,
        loaded_store(Some(document)) == cache@,
{
    let pairs = cache.pairs();
    let mut document: Vec<SavedItem> = Vec::new();
    let mut i: usize = 0;
    while i < pairs.len()
        invariant
            i <= pairs.len(),
            document@.len() == i,
            forall|j: int|
                0 <= j < i ==> {
                    &&& (#[trigger] document@[j]).base@ == pairs@[j].0@
                    &&& saved_snapshot(document@[j]) == pairs@[j].1@
                    &&& all_positive_finite(document@[j].rates@)
                    &&& distinct_codes(document@[j].rates@)
                },
        decreases pairs.len() - i,
    {
        let item = &pairs[i].1;
        let rates = copy_pairs(item.rates.pairs());
        document.push(SavedItem { base: pairs[i].0.clone(), rates, timestamp: item.timestamp });
        i += 1;
    }
    proof {
        lemma_saved_store_of_pairs(document@, pairs@);
        assert forall|a: int, b: int|
            #![trigger document@[a], document@[b]]
            0 <= a < b < document@.len() implies document@[a].base@ != document@[b].base@ by {
            assert(pairs@[a].0@ != pairs@[b].0@);
        }
    }
    document
}

/// The store that a persisted document holds. A caller passes `None`
/// where there is no document to read; the store is then empty.
pub fn load_cache(document: Option<Vec<SavedItem>>) -> (cache: RateStore)
    ensures
        cache@ == loaded_store(document),
{
    let mut cache: RateStore = CodeMap::new();
    match document {
        None => cache,
        Some(items) => {
            let mut i: usize = 0;
            while i < items.len()
                invariant
                    i <= items.len(),
                    document == Some(items),
                    saved_usable(items@.take(i as int)),
                    cache@ == saved_store(items@.take(i as int)),
                decreases items.len() - i,
            {
                match Rates::from_pairs(items[i].rates.as_slice()) {
                    Some(rates) => {
                        cache.insert(
                            items[i].base.clone(),
                            CacheItem { rates, timestamp: items[i].timestamp },
                        );
                    },
                    None => {
                        proof {
                            assert(!all_positive_finite(items@[i as int].rates@));
                        }
                        return CodeMap::new();
                    },
                }
                proof {
                    assert(items@.take(i + 1).drop_last() == items@.take(i as int));
                }
                i += 1;
            }
            proof {
                assert(items@.take(i as int) == items@);
            }
            cache
        },
    }
}

/// Every rate of a loaded store is positive and finite.
pub proof fn loaded_rates_are_positive_finite(document: Option<Vec<SavedItem>>)
    ensures
        store_positive_finite(loaded_store(document)),
{
    if let Some(items) = document {
        if saved_usable(items@) {
            lemma_saved_store_positive_finite(items@);
        }
    }
}

/// Saving a store and loading what was saved gives the same store again:
/// the same base currencies, each with the same rates and the same fetch
/// time. `document` is any list that `save_cache` may return for `store`.
pub proof fn load_restores_saved(store: Map<Seq<char>, Snapshot>, document: Vec<SavedItem>)
    requires
        saved_usable(document@),
        saved_store(document@) == store,
    ensures
        loaded_store(Some(document)) == store,
{
}

} // verus!
