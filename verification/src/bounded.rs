use crate::diff::{Comparable, Diff, Diffable};
use crate::key::MapKey;
use crate::map::{map_diff, value_diff, MapValueDiff, MapValueDiffModel};
use std::collections::BTreeMap;
use vstd::prelude::*;

verus! {

/// A map that holds no more entries than its bound.
///
/// It is diffed as the map that it holds: the bound plays no part in a diff.
#[derive(Debug)]
pub struct BoundedMap<K, V> {
    map: BTreeMap<K, V>,
    bound: u32,
}

impl<K, V> BoundedMap<K, V> {
    /// The entries of this map.
    pub closed spec fn view(&self) -> Map<K, V> {
        self.map@
    }

    /// The number of entries that this map may hold at most.
    pub closed spec fn spec_bound(&self) -> u32 {
        self.bound
    }

    #[verifier::type_invariant]
    spec fn within_bound(&self) -> bool {
        self.map@.len() <= self.bound
    }

    /// The number of entries that this map may hold at most.
    pub fn bound(&self) -> (bound: u32)
        ensures
            bound == self.spec_bound(),
    {
        self.bound
    }

    /// The map that this bounded map holds.
    pub fn into_inner(self) -> (map: BTreeMap<K, V>)
        ensures
            map@ == self@,
    {
        self.map
    }
}

impl<K: MapKey, V> BoundedMap<K, V> {
    /// The number of entries of this map, which is never more than its
    /// bound.
    pub fn len(&self) -> (len: usize)
        ensures
            len == self@.len(),
            len <= self.spec_bound(),
    {
        proof {
            use_type_invariant(self);
            K::lemma_lawful_order();
        }
        self.map.len()
    }

    /// Bounds `map` by `bound`. Fails, and hands the map back, where the map
    /// holds more entries than that.
    pub fn try_new(map: BTreeMap<K, V>, bound: u32) -> (bounded: Result<Self, BTreeMap<K, V>>)
        ensures
            match bounded {
                Ok(b) => map@.len() <= bound && b@ == map@ && b.spec_bound() == bound,
                Err(m) => map@.len() > bound && m == map,
            },
    {
        proof {
            K::lemma_lawful_order();
        }
        if map.len() <= bound as usize {
            Ok(BoundedMap { map, bound })
        } else {
            Err(map)
        }
    }

}

impl<K: MapKey, V: Comparable> Comparable for BoundedMap<K, V> {
    type Model = Map<K, V::Model>;

    open spec fn model(&self) -> Map<K, V::Model> {
        self@.map_values(|v: V| v.model())
    }

    fn same_as(&self, other: &Self) -> (same: bool) {
        self.map.same_as(&other.map)
    }
}

impl<K: MapKey, V: Diffable> Diffable for BoundedMap<K, V> {
    type ChangeSet = BTreeMap<K, MapValueDiff<V>>;

    open spec fn diff_model(old: Map<K, V::Model>, new: Map<K, V::Model>) -> Diff<
        Map<K, MapValueDiffModel<V::Model, <V::ChangeSet as Comparable>::Model>>,
    > {
        map_diff(old, new, value_diff::<V>())
    }

    proof fn lemma_not_changed_iff_same(old: Map<K, V::Model>, new: Map<K, V::Model>) {
        BTreeMap::<K, V>::lemma_not_changed_iff_same(old, new);
    }

    fn diff(self, updated: Self) -> (d: Diff<BTreeMap<K, MapValueDiff<V>>>) {
        self.into_inner().diff(updated.into_inner())
    }
}

} // verus!
