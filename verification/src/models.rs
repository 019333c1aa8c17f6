//! Rate tables and the snapshots that the cache keeps of them.
//!
//! A rate is carried as the bit pattern of an IEEE 754 double-precision
//! number. The library never computes with a rate: it stores it, finds it
//! again and hands it back, so the pattern is all it needs.

use vstd::prelude::*;
use crate::code_map::{
    distinct_codes, lemma_pairs_map_source, lemma_pairs_map_value, pairs_map, CodeMap,
};

verus! {

/// The bit pattern of positive infinity. The patterns of the positive
/// finite numbers are exactly those between zero and this one.
pub const POSITIVE_INFINITY: u64 = 0x7FF0_0000_0000_0000;

/// The number of nanoseconds in a second.
pub const NANOS_PER_SEC: u64 = 1_000_000_000;

/// Whether `bits` is the pattern of a positive finite number: the sign bit
/// is clear, the exponent is not all ones, and the number is not zero.
pub open spec fn is_positive_finite(bits: u64) -> bool {
    0 < bits < POSITIVE_INFINITY
}

/// Whether every rate in the list is the pattern of a positive finite
/// number.
pub open spec fn all_positive_finite(pairs: Seq<(String, u64)>) -> bool {
    forall|i: int| 0 <= i < pairs.len() ==> is_positive_finite((#[trigger] pairs[i]).1)
}

/// Whether every rate in the table is the pattern of a positive finite
/// number.
pub open spec fn rates_positive_finite(rates: Map<Seq<char>, u64>) -> bool {
    forall|code: Seq<char>| rates.contains_key(code) ==> is_positive_finite(#[trigger] rates[code])
}

/// A list in which every rate is positive and finite stands for a table in
/// which every rate is.
pub proof fn lemma_pairs_map_positive_finite(pairs: Seq<(String, u64)>)
    requires
        all_positive_finite(pairs),
    ensures
        rates_positive_finite(pairs_map(pairs)),
{
    assert forall|code: Seq<char>| pairs_map(pairs).contains_key(code) implies is_positive_finite(
        #[trigger] pairs_map(pairs)[code],
    ) by {
        lemma_pairs_map_source(pairs, code);
    }
}

/// Whether `bits` is the pattern of a positive finite number.
pub fn rate_is_positive_finite(bits: u64) -> (valid: bool)
    ensures
        valid == is_positive_finite(bits),
{
    0 < bits && bits < POSITIVE_INFINITY
}

/// The rates of one base currency: for each currency code one positive
/// finite rate.
#[derive(Debug)]
pub struct Rates {
    rates: CodeMap<u64>,
}

impl View for Rates {
    type V = Map<Seq<char>, u64>;

    closed spec fn view(&self) -> Map<Seq<char>, u64> {
        self.rates@
    }
}

impl Rates {
    #[verifier::type_invariant]
    spec fn only_positive_finite(&self) -> bool {
        rates_positive_finite(self.rates@)
    }

    /// The empty table.
    pub fn new() -> (made: Self)
        ensures
            made@ == Map::<Seq<char>, u64>::empty(),
    {
        Rates { rates: CodeMap::new() }
    }

    /// The table that `pairs` stands for, if every rate in it is positive
    /// and finite. Of two pairs with the same code the later one counts.
    pub fn from_pairs(pairs: &[(String, u64)]) -> (made: Option<Self>)
        ensures
            match made {
                Some(table) => all_positive_finite(pairs@) && table@ == pairs_map(pairs@),
                None => !all_positive_finite(pairs@),
            },
    {
        let mut rates: CodeMap<u64> = CodeMap::new();
        let mut i: usize = 0;
        while i < pairs.len()
            invariant
                i <= pairs.len(),
                rates@ == pairs_map(pairs@.take(i as int)),
                all_positive_finite(pairs@.take(i as int)),
                rates_positive_finite(rates@),
            decreases pairs.len() - i,
        {
            let bits = pairs[i].1;
            if !rate_is_positive_finite(bits) {
                return None;
            }
            rates.insert(pairs[i].0.clone(), bits);
            proof {
                assert(pairs@.take(i + 1).drop_last() == pairs@.take(i as int));
            }
            i += 1;
        }
        proof {
            assert(pairs@.take(i as int) == pairs@);
        }
        Some(Rates { rates })
    }

    /// The number of currencies in the table.
    pub fn len(&self) -> (n: usize)
        ensures
            self@.dom().finite(),
            n == self@.len(),
    {
        self.rates.len()
    }

    /// The rate of `code`.
    pub fn get(&self, code: &str) -> (found: Option<u64>)
        ensures
            found == (if self@.contains_key(code@) {
                Some(self@[code@])
            } else {
                None
            }),
            found matches Some(bits) ==> is_positive_finite(bits),
    {
        proof {
            use_type_invariant(self);
        }
        match self.rates.get(code) {
            Some(bits) => Some(*bits),
            None => None,
        }
    }

    /// Sets the rate of `code`, if `bits` is the pattern of a positive
    /// finite number, and says whether it did.
    pub fn insert(&mut self, code: String, bits: u64) -> (stored: bool)
        ensures
            stored == is_positive_finite(bits),
            final(self)@ == (if stored {
                old(self)@.insert(code@, bits)
            } else {
                old(self)@
            }),
    {
        proof {
            use_type_invariant(&*self);
        }
        if !rate_is_positive_finite(bits) {
            return false;
        }
        let mut rates: CodeMap<u64> = CodeMap::new();
        std::mem::swap(&mut self.rates, &mut rates);
        rates.insert(code, bits);
        self.rates = rates;
        true
    }

    /// The table as a list of pairs, each code once, every rate positive
    /// and finite.
    pub fn pairs(&self) -> (listed: &[(String, u64)])
        ensures
            distinct_codes(listed@),
            all_positive_finite(listed@),
            pairs_map(listed@) == self@,
    {
        proof {
            use_type_invariant(self);
        }
        let listed = self.rates.pairs();
        proof {
            assert forall|i: int| 0 <= i < listed@.len() implies is_positive_finite(
                (#[trigger] listed@[i]).1,
            ) by {
                lemma_pairs_map_value(listed@, i);
            }
        }
        listed
    }
}

impl Clone for Rates {
    /// A table with the same rates.
    fn clone(&self) -> (copy: Self)
        ensures
            copy@ == self@,
    {
        match Rates::from_pairs(self.pairs()) {
            Some(copy) => copy,
            None => Rates::new(),
        }
    }
}

/// A point in time: seconds and nanoseconds since the start of 1970 (UTC).
#[derive(Clone, Copy, Debug, PartialEq, Eq, Structural)]
pub struct Timestamp {
    pub secs_since_epoch: u64,
    pub nanos_since_epoch: u32,
}

impl Timestamp {
    /// The nanoseconds from the start of 1970 to this point in time.
    pub open spec fn nanos(self) -> nat {
        (self.secs_since_epoch * NANOS_PER_SEC + self.nanos_since_epoch) as nat
    }
}

/// What a snapshot holds: the rates of one base currency and the time at
/// which they were fetched.
pub struct Snapshot {
    pub rates: Map<Seq<char>, u64>,
    pub timestamp: Timestamp,
}

/// Whether every rate of every snapshot in the store is positive and
/// finite.
pub open spec fn store_positive_finite(store: Map<Seq<char>, Snapshot>) -> bool {
    forall|base: Seq<char>|
        store.contains_key(base) ==> rates_positive_finite((#[trigger] store[base]).rates)
}

/// A snapshot in the cache: one fetched rate table with its fetch time.
#[derive(Debug)]
pub struct CacheItem {
    pub rates: Rates,
    pub timestamp: Timestamp,
}

impl Clone for CacheItem {
    /// A snapshot with the same rates and the same fetch time.
    fn clone(&self) -> (copy: Self)
        ensures
            copy@ == self@,
    {
        CacheItem { rates: self.rates.clone(), timestamp: self.timestamp }
    }
}

impl View for CacheItem {
    type V = Snapshot;

    open spec fn view(&self) -> Snapshot {
        Snapshot { rates: self.rates@, timestamp: self.timestamp }
    }
}

} // verus!
