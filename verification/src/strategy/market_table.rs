//! Per-market state: a table and a set, both keyed by the market id.
use vstd::prelude::*;

use crate::types::B256;

verus! {

/// Where `key` stands in `keys`.
fn find(keys: &Vec<B256>, key: B256) -> (r: Option<usize>)
    ensures
        r is Some <==> keys@.contains(key),
        r matches Some(i) ==> i < keys@.len() && keys@[i as int] == key,
{
    let mut i: usize = 0;
    while i < keys.len()
        invariant
            i <= keys@.len(),
            forall|j: int| 0 <= j < i ==> keys@[j] != key,
        decreases keys@.len() - i,
    {
        if keys[i] == key {
            return Some(i);
        }
        i += 1;
    }
    None
}

/// A map from market to state. No market stands in it twice.
pub struct MarketTable<T: View> {
    keys: Vec<B256>,
    states: Vec<T>,
}

impl<T: View> MarketTable<T> {
    /// Each key has one state.
    #[verifier::type_invariant]
    spec fn wf(self) -> bool {
        &&& self.keys@.len() == self.states@.len()
        &&& self.keys@.no_duplicates()
    }

    /// The states themselves.
    pub closed spec fn states(self) -> Map<B256, T> {
        Map::new(|k: B256| self.keys@.contains(k), |k: B256| self.states@[self.keys@.index_of(k)])
    }

    /// A table without markets.
    pub fn new() -> (r: Self)
        ensures
            r@ == Map::<B256, T::V>::empty(),
            r.states() == Map::<B256, T>::empty(),
    {
        let r = MarketTable { keys: Vec::new(), states: Vec::new() };
        assert(r@ =~= Map::<B256, T::V>::empty());
        assert(r.states() =~= Map::<B256, T>::empty());
        r
    }

    /// The state of a market.
    pub fn get(&self, key: B256) -> (r: Option<&T>)
        ensures
            r is Some <==> self@.contains_key(key),
            r matches Some(s) ==> s@ == self@[key],
            r is Some <==> self.states().contains_key(key),
            r matches Some(s) ==> *s == self.states()[key],
    {
        proof {
            use_type_invariant(self);
        }
        match find(&self.keys, key) {
            Some(i) => {
                assert(self.keys@.index_of(key) == i);
                Some(&self.states[i])
            },
            None => None,
        }
    }

    /// Sets the state of a market.
    pub fn set(&mut self, key: B256, state: T)
        ensures
            final(self)@ == old(self)@.insert(key, state@),
            final(self).states() == old(self).states().insert(key, state),
    {
        proof {
            use_type_invariant(&*self);
        }
        let ghost before = self.keys@;
        let ghost states_before = self.states@;
        let mut table = MarketTable { keys: Vec::new(), states: Vec::new() };
        std::mem::swap(self, &mut table);
        let MarketTable { mut keys, mut states } = table;
        match find(&keys, key) {
            Some(i) => {
                states.set(i, state);
                assert(keys@.index_of(key) == i);
            },
            None => {
                keys.push(key);
                states.push(state);
                assert(keys@[before.len() as int] == key);
                assert(keys@.index_of(key) == before.len());
            },
        }
        assert forall|k: B256| #[trigger] keys@.contains(k) <==> before.contains(k) || k == key by {
            if before.contains(k) {
                assert(keys@[before.index_of(k)] == k);
            }
            if k == key && !before.contains(k) {
                assert(keys@[before.len() as int] == k);
            }
        }
        assert forall|k: B256| before.contains(k) && k != key implies states@[#[trigger] keys@.index_of(k)]
            == states_before[before.index_of(k)] by {
            assert(keys@[before.index_of(k)] == k);
            assert(keys@.index_of(k) == before.index_of(k));
        }
        *self = MarketTable { keys, states };
        assert(self@ =~= old(self)@.insert(key, state@));
        assert(self.states() =~= old(self).states().insert(key, state));
    }
}

impl<T: View> View for MarketTable<T> {
    type V = Map<B256, T::V>;

    closed spec fn view(&self) -> Map<B256, T::V> {
        Map::new(
            |k: B256| self.keys@.contains(k),
            |k: B256| self.states@[self.keys@.index_of(k)]@,
        )
    }
}

/// A set of markets.
pub struct MarketSet {
    keys: Vec<B256>,
}

impl View for MarketSet {
    type V = Set<B256>;

    closed spec fn view(&self) -> Set<B256> {
        self.keys@.to_set()
    }
}

impl MarketSet {
    /// The empty set.
    pub fn new() -> (r: Self)
        ensures
            r@ == Set::<B256>::empty(),
    {
        let r = MarketSet { keys: Vec::new() };
        assert(r@ =~= Set::<B256>::empty());
        r
    }

    /// Whether the market is in the set.
    pub fn contains(&self, key: B256) -> (r: bool)
        ensures
            r == self@.contains(key),
    {
        find(&self.keys, key).is_some()
    }

    /// Puts the market into the set.
    pub fn insert(&mut self, key: B256)
        ensures
            final(self)@ == old(self)@.insert(key),
    {
        let ghost before = self.keys@;
        if find(&self.keys, key).is_none() {
            self.keys.push(key);
            assert forall|k: B256| #[trigger] self.keys@.contains(k) <==> before.contains(k) || k == key by {
                if before.contains(k) {
                    assert(self.keys@[before.index_of(k)] == k);
                }
                assert(self.keys@.last() == key);
            }
        }
        assert(self@ =~= old(self)@.insert(key));
    }

    /// Takes all markets out of the set.
    pub fn clear(&mut self)
        ensures
            final(self)@ == Set::<B256>::empty(),
    {
        self.keys.clear();
        assert(self@ =~= Set::<B256>::empty());
    }
}

} // verus!
