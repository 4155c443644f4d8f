//! Resource attributes: the key-value tags that describe the process which
//! emits the metrics.

use vstd::prelude::*;
use opentelemetry::sdk::Resource;
use crate::sdk::{resource_attributes, resource_from_pairs};

verus! {

/// The mapping that a list of pairs denotes when the pairs are entered one
/// after the other: a later pair replaces an earlier one with the same key.
pub open spec fn attributes_of(pairs: Seq<(Seq<char>, Seq<char>)>) -> Map<Seq<char>, Seq<char>>
    decreases pairs.len(),
{
    if pairs.len() == 0 {
        Map::empty()
    } else {
        attributes_of(pairs.drop_last()).insert(pairs.last().0, pairs.last().1)
    }
}

/// The texts of a list of string pairs.
pub open spec fn pair_views(pairs: Seq<(String, String)>) -> Seq<(Seq<char>, Seq<char>)> {
    pairs.map_values(|p: (String, String)| (p.0@, p.1@))
}

/// No key occurs twice in `pairs`.
pub open spec fn distinct_keys(pairs: Seq<(Seq<char>, Seq<char>)>) -> bool {
    forall|i: int, j: int| 0 <= i < j < pairs.len() ==> pairs[i].0 != pairs[j].0
}

/// The keys of the mapping are the keys of the pairs, and there are finitely
/// many of them.
pub proof fn lemma_attributes_domain(pairs: Seq<(Seq<char>, Seq<char>)>)
    ensures
        attributes_of(pairs).dom().finite(),
        forall|key: Seq<char>|
            attributes_of(pairs).contains_key(key) <==> exists|i: int|
                0 <= i < pairs.len() && (#[trigger] pairs[i]).0 == key,
    decreases pairs.len(),
{
    if pairs.len() > 0 {
        let front = pairs.drop_last();
        lemma_attributes_domain(front);
        assert forall|key: Seq<char>|
            attributes_of(pairs).contains_key(key) <==> exists|i: int|
                0 <= i < pairs.len() && (#[trigger] pairs[i]).0 == key by {
            if attributes_of(pairs).contains_key(key) {
                if key == pairs.last().0 {
                    assert(pairs[pairs.len() - 1].0 == key);
                } else {
                    let i = choose|i: int| 0 <= i < front.len() && (#[trigger] front[i]).0 == key;
                    assert(pairs[i].0 == key);
                }
            }
            if exists|i: int| 0 <= i < pairs.len() && (#[trigger] pairs[i]).0 == key {
                let i = choose|i: int| 0 <= i < pairs.len() && (#[trigger] pairs[i]).0 == key;
                if i < front.len() {
                    assert(front[i].0 == key);
                }
            }
        }
    }
}

/// Where no key occurs twice, every pair is an entry of the mapping, and the
/// mapping has as many entries as there are pairs.
pub proof fn lemma_attributes_of_distinct(pairs: Seq<(Seq<char>, Seq<char>)>)
    requires
        distinct_keys(pairs),
    ensures
        attributes_of(pairs).dom().finite(),
        attributes_of(pairs).len() == pairs.len(),
        forall|i: int|
            0 <= i < pairs.len() ==> attributes_of(pairs).contains_pair(
                (#[trigger] pairs[i]).0,
                pairs[i].1,
            ),
    decreases pairs.len(),
{
    lemma_attributes_domain(pairs);
    if pairs.len() > 0 {
        let front = pairs.drop_last();
        lemma_attributes_of_distinct(front);
        lemma_attributes_domain(front);
        assert(!attributes_of(front).contains_key(pairs.last().0)) by {
            if attributes_of(front).contains_key(pairs.last().0) {
                let i = choose|i: int|
                    0 <= i < front.len() && (#[trigger] front[i]).0 == pairs.last().0;
                assert(pairs[i].0 != pairs[pairs.len() - 1].0);
            }
        }
        assert forall|i: int| 0 <= i < pairs.len() implies attributes_of(pairs).contains_pair(
            (#[trigger] pairs[i]).0,
            pairs[i].1,
        ) by {
            if i < front.len() {
                assert(front[i] == pairs[i]);
                assert(pairs[i].0 != pairs[pairs.len() - 1].0);
            }
        }
    }
}

/// Giving the pair at `at` a new value enters that value for the key of the
/// pair, and leaves every key single.
pub proof fn lemma_attributes_of_update(
    pairs: Seq<(Seq<char>, Seq<char>)>,
    at: int,
    value: Seq<char>,
)
    requires
        distinct_keys(pairs),
        0 <= at < pairs.len(),
    ensures
        distinct_keys(pairs.update(at, (pairs[at].0, value))),
        attributes_of(pairs.update(at, (pairs[at].0, value))) == attributes_of(pairs).insert(
            pairs[at].0,
            value,
        ),
    decreases pairs.len(),
{
    let key = pairs[at].0;
    let updated = pairs.update(at, (key, value));
    let front = pairs.drop_last();
    assert(distinct_keys(updated));
    if at == pairs.len() - 1 {
        assert(updated.drop_last() == front);
        assert(attributes_of(updated) == attributes_of(pairs).insert(key, value));
    } else {
        assert(distinct_keys(front));
        lemma_attributes_of_update(front, at, value);
        assert(front[at] == pairs[at]);
        assert(updated.drop_last() == front.update(at, (key, value)));
        assert(updated.last() == pairs.last());
        assert(pairs[at].0 != pairs[pairs.len() - 1].0);
        assert(attributes_of(updated) == attributes_of(pairs).insert(key, value));
    }
}

/// A mapping from attribute keys to string values. No key occurs twice.
#[derive(Debug)]
pub struct ResourceMap {
    pairs: Vec<(String, String)>,
}

impl View for ResourceMap {
    type V = Map<Seq<char>, Seq<char>>;

    closed spec fn view(&self) -> Map<Seq<char>, Seq<char>> {
        attributes_of(pair_views(self.pairs@))
    }
}

impl ResourceMap {
    #[verifier::type_invariant]
    spec fn well_formed(&self) -> bool {
        distinct_keys(pair_views(self.pairs@))
    }

    /// The mapping without entries.
    pub fn new() -> (r: Self)
        ensures
            r@ == Map::<Seq<char>, Seq<char>>::empty(),
    {
        ResourceMap { pairs: Vec::new() }
    }

    /// The number of entries.
    pub fn len(&self) -> (n: usize)
        ensures
            self@.dom().finite(),
            n == self@.len(),
    {
        proof {
            use_type_invariant(self);
            lemma_attributes_of_distinct(pair_views(self.pairs@));
        }
        self.pairs.len()
    }

    /// The value entered for `key`, if there is one.
    pub fn get(&self, key: &String) -> (r: Option<&String>)
        ensures
            match r {
                Some(value) => self@.contains_pair(key@, value@),
                None => !self@.contains_key(key@),
            },
    {
        proof {
            use_type_invariant(self);
            lemma_attributes_of_distinct(pair_views(self.pairs@));
            lemma_attributes_domain(pair_views(self.pairs@));
        }
        let mut i: usize = 0;
        while i < self.pairs.len()
            invariant
                0 <= i <= self.pairs.len(),
                forall|j: int| 0 <= j < i ==> (#[trigger] pair_views(self.pairs@)[j]).0 != key@,
                forall|j: int|
                    0 <= j < self.pairs.len() ==> self@.contains_pair(
                        (#[trigger] pair_views(self.pairs@)[j]).0,
                        pair_views(self.pairs@)[j].1,
                    ),
            decreases self.pairs.len() - i,
        {
            if self.pairs[i].0 == *key {
                assert(pair_views(self.pairs@)[i as int].0 == key@);
                return Some(&self.pairs[i].1);
            }
            assert(pair_views(self.pairs@)[i as int].0 != key@);
            i += 1;
        }
        None
    }

    /// Enters `value` for `key`, in place of the value that `key` had, if it
    /// had one.
    pub fn insert(&mut self, key: String, value: String)
        ensures
            final(self)@ == old(self)@.insert(key@, value@),
    {
        proof {
            use_type_invariant(&*self);
        }
        let mut pairs: Vec<(String, String)> = Vec::new();
        core::mem::swap(&mut self.pairs, &mut pairs);
        let ghost before = pair_views(pairs@);
        let mut i: usize = 0;
        while i < pairs.len()
            invariant
                0 <= i <= pairs.len(),
                pair_views(pairs@) == before,
                distinct_keys(before),
                attributes_of(before) == old(self)@,
                forall|j: int| 0 <= j < i ==> (#[trigger] before[j]).0 != key@,
            decreases pairs.len() - i,
        {
            if pairs[i].0 == key {
                proof {
                    assert(before[i as int].0 == key@);
                    lemma_attributes_of_update(before, i as int, value@);
                    assert(pair_views(pairs@.update(i as int, (key, value))) == before.update(
                        i as int,
                        (key@, value@),
                    ));
                }
                pairs.set(i, (key, value));
                self.pairs = pairs;
                return ;
            }
            assert(before[i as int].0 != key@);
            i += 1;
        }
        proof {
            let after = pair_views(pairs@.push((key, value)));
            assert(after == before.push((key@, value@)));
            assert(after.drop_last() == before);
            assert(distinct_keys(after));
        }
        pairs.push((key, value));
        self.pairs = pairs;
    }

    /// The entries as a list of pairs, each key once.
    pub fn entries(&self) -> (r: &Vec<(String, String)>)
        ensures
            distinct_keys(pair_views(r@)),
            attributes_of(pair_views(r@)) == self@,
    {
        proof {
            use_type_invariant(self);
        }
        &self.pairs
    }

    /// The resource that holds these attributes, and no others.
    pub fn to_resource(&self) -> (resource: Resource)
        ensures
            resource_attributes(resource) == self@,
    {
        proof {
            use_type_invariant(self);
        }
        resource_from_pairs(&self.pairs)
    }
}

} // verus!
