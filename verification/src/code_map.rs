//! A map from currency codes to values, kept as a list of pairs in which no
//! code occurs twice.

use vstd::prelude::*;
use crate::text::str_eq;

verus! {

/// The map that a list of pairs stands for. Where a code occurs more than
/// once, the pair nearest the end of the list decides its value.
pub open spec fn pairs_map<V: View>(pairs: Seq<(String, V)>) -> Map<Seq<char>, V::V>
    decreases pairs.len(),
{
    if pairs.len() == 0 {
        Map::empty()
    } else {
        pairs_map(pairs.drop_last()).insert(pairs.last().0@, pairs.last().1@)
    }
}

/// No code occurs in two pairs of the list.
pub open spec fn distinct_codes<V>(pairs: Seq<(String, V)>) -> bool {
    forall|i: int, j: int|
        #![trigger pairs[i], pairs[j]]
        0 <= i < j < pairs.len() ==> pairs[i].0@ != pairs[j].0@
}

/// The codes of `pairs_map(pairs)` are the codes that occur in `pairs`.
pub proof fn lemma_pairs_map_codes<V: View>(pairs: Seq<(String, V)>, code: Seq<char>)
    ensures
        pairs_map(pairs).contains_key(code) <==> exists|i: int|
            0 <= i < pairs.len() && (#[trigger] pairs[i]).0@ == code,
    decreases pairs.len(),
{
    if pairs.len() > 0 {
        let front = pairs.drop_last();
        lemma_pairs_map_codes(front, code);
        if pairs_map(pairs).contains_key(code) {
            if pairs.last().0@ == code {
                assert(pairs[pairs.len() - 1].0@ == code);
            } else {
                let i = choose|i: int| 0 <= i < front.len() && (#[trigger] front[i]).0@ == code;
                assert(pairs[i].0@ == code);
            }
        }
        if exists|i: int| 0 <= i < pairs.len() && (#[trigger] pairs[i]).0@ == code {
            let i = choose|i: int| 0 <= i < pairs.len() && (#[trigger] pairs[i]).0@ == code;
            if i < pairs.len() - 1 {
                assert(front[i].0@ == code);
            }
        }
    }
}

/// Every value of `pairs_map(pairs)` is the value of a pair with that code.
pub proof fn lemma_pairs_map_source<V: View>(pairs: Seq<(String, V)>, code: Seq<char>)
    requires
        pairs_map(pairs).contains_key(code),
    ensures
        exists|i: int|
            0 <= i < pairs.len() && (#[trigger] pairs[i]).0@ == code && pairs[i].1@ == pairs_map(
                pairs,
            )[code],
    decreases pairs.len(),
{
    if pairs.len() > 0 {
        let last = pairs.len() - 1;
        if pairs[last].0@ == code {
            assert(pairs[last].1@ == pairs_map(pairs)[code]);
        } else {
            let front = pairs.drop_last();
            lemma_pairs_map_source(front, code);
            let i = choose|i: int|
                0 <= i < front.len() && (#[trigger] front[i]).0@ == code && front[i].1@
                    == pairs_map(front)[code];
            assert(pairs[i].0@ == code && pairs[i].1@ == pairs_map(pairs)[code]);
        }
    }
}

/// In a list without repeated codes, every pair gives the value of its code.
pub proof fn lemma_pairs_map_value<V: View>(pairs: Seq<(String, V)>, i: int)
    requires
        distinct_codes(pairs),
        0 <= i < pairs.len(),
    ensures
        pairs_map(pairs).contains_key(pairs[i].0@),
        pairs_map(pairs)[pairs[i].0@] == pairs[i].1@,
    decreases pairs.len(),
{
    let front = pairs.drop_last();
    if i < pairs.len() - 1 {
        assert(distinct_codes(front)) by {
            assert forall|a: int, b: int|
                #![trigger front[a], front[b]]
                0 <= a < b < front.len() implies front[a].0@ != front[b].0@ by {
                assert(pairs[a].0@ != pairs[b].0@);
            }
        }
        lemma_pairs_map_value(front, i);
        assert(front[i] == pairs[i]);
        assert(pairs[i].0@ != pairs[pairs.len() - 1].0@);
    }
}

/// A list without repeated codes stands for a finite map with one entry per
/// pair.
pub proof fn lemma_pairs_map_len<V: View>(pairs: Seq<(String, V)>)
    requires
        distinct_codes(pairs),
    ensures
        pairs_map(pairs).dom().finite(),
        pairs_map(pairs).len() == pairs.len(),
    decreases pairs.len(),
{
    if pairs.len() > 0 {
        let front = pairs.drop_last();
        assert(distinct_codes(front)) by {
            assert forall|a: int, b: int|
                #![trigger front[a], front[b]]
                0 <= a < b < front.len() implies front[a].0@ != front[b].0@ by {
                assert(pairs[a].0@ != pairs[b].0@);
            }
        }
        lemma_pairs_map_len(front);
        lemma_pairs_map_codes(front, pairs.last().0@);
        if pairs_map(front).contains_key(pairs.last().0@) {
            let i = choose|i: int| 0 <= i < front.len() && (#[trigger] front[i]).0@ == pairs.last().0@;
            assert(pairs[i].0@ != pairs[pairs.len() - 1].0@);
        }
    }
}

/// Replacing the pair that holds a code by another pair for the same code
/// changes the value of that code and nothing else.
pub proof fn lemma_pairs_map_update<V: View>(pairs: Seq<(String, V)>, i: int, pair: (String, V))
    requires
        distinct_codes(pairs),
        0 <= i < pairs.len(),
        pairs[i].0@ == pair.0@,
    ensures
        distinct_codes(pairs.update(i, pair)),
        pairs_map(pairs.update(i, pair)) == pairs_map(pairs).insert(pair.0@, pair.1@),
    decreases pairs.len(),
{
    let after = pairs.update(i, pair);
    assert(distinct_codes(after)) by {
        assert forall|a: int, b: int|
            #![trigger after[a], after[b]]
            0 <= a < b < after.len() implies after[a].0@ != after[b].0@ by {
            assert(pairs[a].0@ != pairs[b].0@);
        }
    }
    let front = pairs.drop_last();
    if i == pairs.len() - 1 {
        assert(after.drop_last() == front);
        assert(pairs_map(after) == pairs_map(pairs).insert(pair.0@, pair.1@));
    } else {
        assert(distinct_codes(front)) by {
            assert forall|a: int, b: int|
                #![trigger front[a], front[b]]
                0 <= a < b < front.len() implies front[a].0@ != front[b].0@ by {
                assert(pairs[a].0@ != pairs[b].0@);
            }
        }
        lemma_pairs_map_update(front, i, pair);
        assert(after.drop_last() == front.update(i, pair));
        assert(after.last() == pairs.last());
        assert(pairs[i].0@ != pairs[pairs.len() - 1].0@);
        assert(pairs_map(after) == pairs_map(pairs).insert(pair.0@, pair.1@));
    }
}

/// A map from currency codes to values of type `V`.
///
/// Its view is the mathematical map from each code, as a sequence of
/// characters, to the view of the value stored under it.
#[derive(Debug)]
pub struct CodeMap<V: View> {
    pairs: Vec<(String, V)>,
}

impl<V: View> View for CodeMap<V> {
    type V = Map<Seq<char>, V::V>;

    closed spec fn view(&self) -> Map<Seq<char>, V::V> {
        pairs_map(self.pairs@)
    }
}

impl<V: View> CodeMap<V> {
    #[verifier::type_invariant]
    spec fn no_code_twice(&self) -> bool {
        distinct_codes(self.pairs@)
    }

    /// The empty map.
    pub fn new() -> (made: Self)
        ensures
            made@ == Map::<Seq<char>, V::V>::empty(),
    {
        CodeMap { pairs: Vec::new() }
    }

    /// The number of codes in the map.
    pub fn len(&self) -> (n: usize)
        ensures
            self@.dom().finite(),
            n == self@.len(),
    {
        proof {
            use_type_invariant(self);
            lemma_pairs_map_len(self.pairs@);
        }
        self.pairs.len()
    }

    /// Where `code` stands in the list, if it does.
    fn position(&self, code: &str) -> (at: Option<usize>)
        ensures
            match at {
                Some(i) => i < self.pairs@.len() && self.pairs@[i as int].0@ == code@,
                None => !self@.contains_key(code@),
            },
    {
        let mut i: usize = 0;
        while i < self.pairs.len()
            invariant
                i <= self.pairs@.len(),
                forall|j: int| 0 <= j < i ==> (#[trigger] self.pairs@[j]).0@ != code@,
            decreases self.pairs@.len() - i,
        {
            if str_eq(self.pairs[i].0.as_str(), code) {
                return Some(i);
            }
            i += 1;
        }
        proof {
            lemma_pairs_map_codes(self.pairs@, code@);
        }
        None
    }

    /// Whether the map holds a value for `code`.
    pub fn contains_key(&self, code: &str) -> (held: bool)
        ensures
            held == self@.contains_key(code@),
    {
        match self.position(code) {
            Some(i) => {
                proof {
                    use_type_invariant(self);
                    lemma_pairs_map_value(self.pairs@, i as int);
                }
                true
            },
            None => false,
        }
    }

    /// The value stored under `code`.
    pub fn get(&self, code: &str) -> (found: Option<&V>)
        ensures
            match found {
                Some(value) => self@.contains_key(code@) && value@ == self@[code@],
                None => !self@.contains_key(code@),
            },
    {
        match self.position(code) {
            Some(i) => {
                proof {
                    use_type_invariant(self);
                    lemma_pairs_map_value(self.pairs@, i as int);
                }
                Some(&self.pairs[i].1)
            },
            None => None,
        }
    }

    /// Stores `value` under `code`, in place of what was stored there.
    pub fn insert(&mut self, code: String, value: V)
        ensures
            final(self)@ == old(self)@.insert(code@, value@),
    {
        proof {
            use_type_invariant(&*self);
        }
        let at = self.position(code.as_str());
        let mut pairs: Vec<(String, V)> = Vec::new();
        std::mem::swap(&mut self.pairs, &mut pairs);
        match at {
            Some(i) => {
                proof {
                    lemma_pairs_map_update(pairs@, i as int, (code, value));
                }
                pairs[i] = (code, value);
            },
            None => {
                proof {
                    let before = pairs@;
                    let after = before.push((code, value));
                    assert(after.drop_last() == before);
                    assert forall|a: int, b: int|
                        #![trigger after[a], after[b]]
                        0 <= a < b < after.len() implies after[a].0@ != after[b].0@ by {
                        if b == before.len() {
                            lemma_pairs_map_codes(before, code@);
                            assert(before[a].0@ != code@);
                        } else {
                            assert(before[a].0@ != before[b].0@);
                        }
                    }
                }
                pairs.push((code, value));
            },
        }
        self.pairs = pairs;
    }

    /// The pairs of the map, each code once.
    pub fn pairs(&self) -> (listed: &[(String, V)])
        ensures
            distinct_codes(listed@),
            pairs_map(listed@) == self@,
    {
        proof {
            use_type_invariant(self);
        }
        self.pairs.as_slice()
    }
}

} // verus!
