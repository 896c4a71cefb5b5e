//! Card search query structures and builders for constructing search
//! requests.

use vstd::multiset::Multiset;
use vstd::prelude::*;

use crate::errors::BubbleHearthResult;

verus! {

/// A query search struct containing all the various filters available for
/// card searching.
#[derive(Debug, Clone, Eq, PartialEq)]
pub struct CardSearchQuery<'a> {
    /// The slug of the set the card belongs to. If you do not supply a
    /// value, cards from all sets will be returned.
    pub set: Option<&'a str>,
    /// The slug of the card's class.
    pub class: Option<&'a str>,
    /// The mana cost required to play the card, kept sorted ascending. You
    /// can include multiple values accumulated over several builder steps.
    pub mana_costs: Option<Vec<u32>>,
}

impl<'a> Default for CardSearchQuery<'a> {
    /// An empty query with no filters configured.
    fn default() -> (query: CardSearchQuery<'a>)
        ensures
            query.set is None,
            query.class is None,
            query.mana_costs is None,
    {
        CardSearchQuery { set: None, class: None, mana_costs: None }
    }
}

/// Whether a sequence of mana costs is sorted ascending.
pub open spec fn spec_sorted(s: Seq<u32>) -> bool {
    forall|i: int, j: int| 0 <= i < j < s.len() ==> s[i] <= s[j]
}

/// The mana costs already accumulated on a query, as a multiset.
pub open spec fn spec_mana_multiset(existing: Option<Vec<u32>>) -> Multiset<u32> {
    match existing {
        Some(v) => v@.to_multiset(),
        None => Multiset::<u32>::empty(),
    }
}

/// Inserts `value` into a sorted vector, keeping it sorted.
fn sorted_insert(v: &mut Vec<u32>, value: u32)
    requires
        spec_sorted(old(v)@),
        old(v)@.len() < usize::MAX,
    ensures
        spec_sorted(final(v)@),
        final(v)@.to_multiset() == old(v)@.to_multiset().insert(value),
        final(v)@.len() == old(v)@.len() + 1,
{
    let mut i: usize = 0;
    while i < v.len() && v[i] <= value
        invariant
            i <= v@.len(),
            v@ == old(v)@,
            forall|k: int| 0 <= k < i ==> v@[k] <= value,
        decreases v@.len() - i,
    {
        i += 1;
    }
    v.insert(i, value);
    proof {
        broadcast use vstd::seq_lib::group_to_multiset_ensures;

        let s = old(v)@;
        let t = v@;
        assert(t.remove(i as int) =~= s);
        assert(t[i as int] == value);
        assert(s.to_multiset() =~= t.to_multiset().remove(value));
        assert(t.to_multiset().count(value) > 0);
        assert(t.to_multiset() =~= s.to_multiset().insert(value));
    }
}

/// A query builder for fluently building card search queries.
#[derive(Debug, Clone, Eq, PartialEq)]
pub struct CardSearchQueryBuilder<'a> {
    /// The query configured so far.
    query: CardSearchQuery<'a>,
}

impl<'a> CardSearchQueryBuilder<'a> {
    /// The query configured so far.
    pub closed spec fn spec_query(&self) -> CardSearchQuery<'a> {
        self.query
    }

    /// Constructs a new default instance without a configured query struct.
    pub fn new() -> (builder: CardSearchQueryBuilder<'a>)
        ensures
            builder.spec_query().set is None,
            builder.spec_query().class is None,
            builder.spec_query().mana_costs is None,
    {
        CardSearchQueryBuilder { query: CardSearchQuery::default() }
    }

    /// Include a set for searching.
    pub fn with_set(self, set: &'a str) -> (builder: CardSearchQueryBuilder<'a>)
        ensures
            builder.spec_query().set == Some(set),
            builder.spec_query().class == self.spec_query().class,
            builder.spec_query().mana_costs == self.spec_query().mana_costs,
    {
        CardSearchQueryBuilder { query: CardSearchQuery { set: Some(set), ..self.query } }
    }

    /// Include a card class slug for searching.
    pub fn with_class(self, slug: &'a str) -> (builder: CardSearchQueryBuilder<'a>)
        ensures
            builder.spec_query().class == Some(slug),
            builder.spec_query().set == self.spec_query().set,
            builder.spec_query().mana_costs == self.spec_query().mana_costs,
    {
        CardSearchQueryBuilder { query: CardSearchQuery { class: Some(slug), ..self.query } }
    }

    /// Include mana costs for searching: the given costs are merged with any
    /// costs accumulated so far, and the result is kept sorted ascending.
    pub fn with_mana_cost(self, mana_costs: Vec<u32>) -> (builder: CardSearchQueryBuilder<'a>)
        requires
            mana_costs@.len() + spec_mana_multiset(self.spec_query().mana_costs).len()
                < usize::MAX,
        ensures
            builder.spec_query().set == self.spec_query().set,
            builder.spec_query().class == self.spec_query().class,
            builder.spec_query().mana_costs matches Some(m) && spec_sorted(m@)
                && m@.to_multiset() == mana_costs@.to_multiset().add(
                spec_mana_multiset(self.spec_query().mana_costs),
            ),
    {
        proof {
            broadcast use vstd::seq_lib::group_to_multiset_ensures;

        }
        let CardSearchQuery { set, class, mana_costs: existing } = self.query;
        let mut merged: Vec<u32> = Vec::new();
        proof {
            assert(mana_costs@.take(0) =~= Seq::<u32>::empty());
            assert(merged@.to_multiset() =~= mana_costs@.take(0).to_multiset());
        }
        let mut i: usize = 0;
        while i < mana_costs.len()
            invariant
                i <= mana_costs@.len(),
                merged@.len() == i,
                mana_costs@.len() + spec_mana_multiset(existing).len() < usize::MAX,
                spec_sorted(merged@),
                merged@.to_multiset() == mana_costs@.take(i as int).to_multiset(),
            decreases mana_costs@.len() - i,
        {
            sorted_insert(&mut merged, mana_costs[i]);
            proof {
                broadcast use vstd::seq_lib::group_to_multiset_ensures;

                assert(mana_costs@.take(i as int + 1) =~= mana_costs@.take(i as int).push(
                    mana_costs@[i as int],
                ));
            }
            i += 1;
        }
        proof {
            assert(mana_costs@.take(mana_costs@.len() as int) =~= mana_costs@);
        }
        match existing {
            None => {
                proof {
                    assert(merged@.to_multiset() =~= mana_costs@.to_multiset().add(
                        Multiset::<u32>::empty(),
                    ));
                }
                CardSearchQueryBuilder {
                    query: CardSearchQuery { set, class, mana_costs: Some(merged) },
                }
            },
            Some(accumulated) => {
                proof {
                    assert(accumulated@.take(0) =~= Seq::<u32>::empty());
                    assert(merged@.to_multiset() =~= mana_costs@.to_multiset().add(
                        accumulated@.take(0).to_multiset(),
                    ));
                }
                let mut k: usize = 0;
                while k < accumulated.len()
                    invariant
                        k <= accumulated@.len(),
                        merged@.len() == mana_costs@.len() + k,
                        mana_costs@.len() + accumulated@.len() < usize::MAX,
                        spec_sorted(merged@),
                        merged@.to_multiset() == mana_costs@.to_multiset().add(
                            accumulated@.take(k as int).to_multiset(),
                        ),
                    decreases accumulated@.len() - k,
                {
                    sorted_insert(&mut merged, accumulated[k]);
                    proof {
                        broadcast use vstd::seq_lib::group_to_multiset_ensures;

                        assert(accumulated@.take(k as int + 1) =~= accumulated@.take(
                            k as int,
                        ).push(accumulated@[k as int]));
                        assert(merged@.to_multiset() =~= mana_costs@.to_multiset().add(
                            accumulated@.take(k as int + 1).to_multiset(),
                        ));
                    }
                    k += 1;
                }
                proof {
                    assert(accumulated@.take(accumulated@.len() as int) =~= accumulated@);
                }
                CardSearchQueryBuilder {
                    query: CardSearchQuery { set, class, mana_costs: Some(merged) },
                }
            },
        }
    }

    /// Returns the structured query struct after being configured by the
    /// requester.
    pub fn build(self) -> (r: BubbleHearthResult<CardSearchQuery<'a>>)
        ensures
            r == Ok::<CardSearchQuery<'a>, crate::errors::BubbleHearthError>(self.spec_query()),
    {
        Ok(self.query)
    }
}

impl<'a> Default for CardSearchQueryBuilder<'a> {
    /// Mirrors [`CardSearchQueryBuilder::new`].
    fn default() -> (builder: CardSearchQueryBuilder<'a>)
        ensures
            builder.spec_query().set is None,
            builder.spec_query().class is None,
            builder.spec_query().mana_costs is None,
    {
        CardSearchQueryBuilder::new()
    }
}

} // verus!
