use crate::diff::{Comparable, Diff, Diffable};
use crate::key::{lawful_order, take_first, MapKey};
use std::collections::BTreeMap;
use vstd::prelude::*;
use vstd::std_specs::iter::IteratorSpec;

verus! {

/// Describes what became of the value under one key between two maps. It is
/// meant to stand in a map of changes, under that key.
#[derive(Debug, PartialEq, Eq)]
pub enum MapValueDiff<T: Diffable> {
    /// The value under this key is the same in both maps.
    NotChanged,
    /// The key was in the old map and is not in the new one.
    Missing,
    /// The key was not in the old map. Contained is the new value as it is,
    /// since there is nothing to diff it against.
    Added(T),
    /// The key is in both maps and its value changed. Contained is the
    /// changeset between the old and the new value.
    Changed(T::ChangeSet),
}

impl<T: Diffable> Default for MapValueDiff<T> {
    fn default() -> (d: Self)
        ensures
            d is NotChanged,
    {
        MapValueDiff::NotChanged
    }
}

/// The model of a [`MapValueDiff`]: the same four cases over the model `V` of
/// a value and the model `C` of its changeset.
pub enum MapValueDiffModel<V, C> {
    NotChanged,
    Missing,
    Added(V),
    Changed(C),
}

impl<T: Diffable> Comparable for MapValueDiff<T> {
    type Model = MapValueDiffModel<T::Model, <T::ChangeSet as Comparable>::Model>;

    open spec fn model(&self) -> Self::Model {
        match self {
            MapValueDiff::NotChanged => MapValueDiffModel::NotChanged,
            MapValueDiff::Missing => MapValueDiffModel::Missing,
            MapValueDiff::Added(v) => MapValueDiffModel::Added(v.model()),
            MapValueDiff::Changed(c) => MapValueDiffModel::Changed(c.model()),
        }
    }

    fn same_as(&self, other: &Self) -> (same: bool) {
        match (self, other) {
            (MapValueDiff::NotChanged, MapValueDiff::NotChanged) => true,
            (MapValueDiff::Missing, MapValueDiff::Missing) => true,
            (MapValueDiff::Added(a), MapValueDiff::Added(b)) => a.same_as(b),
            (MapValueDiff::Changed(a), MapValueDiff::Changed(b)) => a.same_as(b),
            _ => false,
        }
    }
}

/// What became of the value under key `k` between the maps `old` and `new`,
/// where `inner` diffs two values.
pub open spec fn map_value_diff<K, V, C>(
    old: Map<K, V>,
    new: Map<K, V>,
    inner: spec_fn(V, V) -> Diff<C>,
    k: K,
) -> MapValueDiffModel<V, C> {
    if old.contains_key(k) {
        if new.contains_key(k) {
            match inner(old[k], new[k]) {
                Diff::NotChanged => MapValueDiffModel::NotChanged,
                Diff::ChangedTo(c) => MapValueDiffModel::Changed(c),
            }
        } else {
            MapValueDiffModel::Missing
        }
    } else if new.contains_key(k) {
        MapValueDiffModel::Added(new[k])
    } else {
        MapValueDiffModel::NotChanged
    }
}

/// The changes between two maps: every key whose value was added, went
/// missing or changed, with what became of it. Keys whose value is the same in
/// both maps are left out.
pub open spec fn map_changes<K, V, C>(
    old: Map<K, V>,
    new: Map<K, V>,
    inner: spec_fn(V, V) -> Diff<C>,
) -> Map<K, MapValueDiffModel<V, C>> {
    Map::new(
        |k: K| !(map_value_diff(old, new, inner, k) is NotChanged),
        |k: K| map_value_diff(old, new, inner, k),
    )
}

/// The diff of two maps: not changed when there are no changes, else changed
/// to the map of changes.
pub open spec fn map_diff<K, V, C>(
    old: Map<K, V>,
    new: Map<K, V>,
    inner: spec_fn(V, V) -> Diff<C>,
) -> Diff<Map<K, MapValueDiffModel<V, C>>> {
    let changes = map_changes(old, new, inner);
    if changes.dom() == Set::<K>::empty() {
        Diff::NotChanged
    } else {
        Diff::ChangedTo(changes)
    }
}

impl<K: MapKey, V: Comparable> Comparable for BTreeMap<K, V> {
    type Model = Map<K, V::Model>;

    open spec fn model(&self) -> Map<K, V::Model> {
        self@.map_values(|v: V| v.model())
    }

    fn same_as(&self, other: &Self) -> (same: bool) {
        proof {
            K::lemma_lawful_order();
        }
        if self.len() != other.len() {
            proof {
                assert(self.model().dom() =~= self@.dom());
                assert(other.model().dom() =~= other@.dom());
            }
            return false;
        }
        for entry in it: self.iter()
            invariant
                lawful_order::<K>(),
                it.seq() == self.iter().remaining(),
                forall|i: int|
                    0 <= i < it.index() ==> other@.contains_key(*(#[trigger] it.seq()[i]).0)
                        && other@[*it.seq()[i].0].model() == it.seq()[i].1.model(),
        {
            let (k, v) = entry;
            match other.get(k) {
                None => {
                    assert(!other.model().contains_key(*k));
                    return false;
                },
                Some(w) => {
                    if !v.same_as(w) {
                        assert(other.model()[*k] == w.model());
                        return false;
                    }
                },
            }
        }
        proof {
            let items = self.iter().remaining();
            assert forall|k: K| self@.contains_key(k) implies other@.contains_key(k)
                && other@[k].model() == self@[k].model() by {
                let i = choose|i: int| 0 <= i < items.len() && items[i] == (&k, &self@[k]);
            }
            vstd::set_lib::lemma_subset_equality(self@.dom(), other@.dom());
            assert(self.model() =~= other.model());
        }
        true
    }
}

/// The diff of two values of type `V`, as a function of their models.
pub open spec fn value_diff<V: Diffable>() -> spec_fn(V::Model, V::Model) -> Diff<
    <V::ChangeSet as Comparable>::Model,
> {
    |o: V::Model, n: V::Model| V::diff_model(o, n)
}

/// The changes between two maps that are found once the keys in `seen` have
/// been looked at.
spec fn changes_within<K, V, C>(
    old: Map<K, V>,
    new: Map<K, V>,
    inner: spec_fn(V, V) -> Diff<C>,
    seen: Set<K>,
) -> Map<K, MapValueDiffModel<V, C>> {
    Map::new(
        |k: K| seen.contains(k) && !(map_value_diff(old, new, inner, k) is NotChanged),
        |k: K| map_value_diff(old, new, inner, k),
    )
}

impl<K: MapKey, V: Diffable> Diffable for BTreeMap<K, V> {
    type ChangeSet = BTreeMap<K, MapValueDiff<V>>;

    open spec fn diff_model(old: Map<K, V::Model>, new: Map<K, V::Model>) -> Diff<
        Map<K, MapValueDiffModel<V::Model, <V::ChangeSet as Comparable>::Model>>,
    > {
        map_diff(old, new, value_diff::<V>())
    }

    proof fn lemma_not_changed_iff_same(old: Map<K, V::Model>, new: Map<K, V::Model>) {
        let inner = value_diff::<V>();
        let changes = map_changes(old, new, inner);
        if old == new {
            assert forall|k: K| map_value_diff(old, new, inner, k) is NotChanged by {
                if old.contains_key(k) {
                    V::lemma_not_changed_iff_same(old[k], new[k]);
                }
            }
            assert(changes.dom() =~= Set::<K>::empty());
        }
        if changes.dom() == Set::<K>::empty() {
            assert forall|k: K| #[trigger]
                old.dom().contains(k) == new.dom().contains(k) && (old.dom().contains(k)
                    ==> old[k] == new[k]) by {
                assert(!changes.dom().contains(k));
                if old.contains_key(k) && new.contains_key(k) {
                    V::lemma_not_changed_iff_same(old[k], new[k]);
                }
            }
            assert(old =~= new);
        }
    }

    fn diff(self, updated: Self) -> (d: Diff<BTreeMap<K, MapValueDiff<V>>>) {
        proof {
            K::lemma_lawful_order();
        }
        let ghost old_model = self.model();
        let ghost new_model = updated.model();
        let ghost old0 = self@;
        let ghost new0 = updated@;
        let ghost inner = value_diff::<V>();
        let mut old = self;
        let mut new = updated;
        let mut changes: BTreeMap<K, MapValueDiff<V>> = BTreeMap::new();
        // Every key of the old map: its value went missing or is diffed with
        // the new value, which is taken out of the new map.
        loop
            invariant
                lawful_order::<K>(),
                old_model == old0.map_values(|v: V| v.model()),
                new_model == new0.map_values(|v: V| v.model()),
                inner == value_diff::<V>(),
                old@.submap_of(old0),
                new@.submap_of(new0),
                forall|k: K|
                    new0.contains_key(k) ==> (#[trigger] new@.contains_key(k) <==> !(
                    old0.contains_key(k) && !old@.contains_key(k))),
                changes.model() == changes_within(
                    old_model,
                    new_model,
                    inner,
                    old0.dom().difference(old@.dom()),
                ),
            ensures
                old@.dom() == Set::<K>::empty(),
            decreases old@.len(),
        {
            let ghost changes_before = changes.model();
            match take_first(&mut old) {
                None => {
                    break ;
                },
                Some((k, v)) => {
                    let ghost key = k;
                    let outcome = match new.remove(&k) {
                        Some(new_v) => match v.diff(new_v) {
                            Diff::NotChanged => MapValueDiff::NotChanged,
                            Diff::ChangedTo(changed) => MapValueDiff::Changed(changed),
                        },
                        None => MapValueDiff::Missing,
                    };
                    let ghost outcome_model = outcome.model();
                    match outcome {
                        MapValueDiff::NotChanged => {},
                        found => {
                            changes.insert(k, found);
                            assert(changes.model() =~= changes_before.insert(key, outcome_model));
                        },
                    }
                },
            }
        }
        // What is left of the new map was added.
        loop
            invariant
                lawful_order::<K>(),
                old_model == old0.map_values(|v: V| v.model()),
                new_model == new0.map_values(|v: V| v.model()),
                inner == value_diff::<V>(),
                new@.submap_of(new0),
                forall|k: K| #[trigger] new@.contains_key(k) ==> !old0.contains_key(k),
                changes.model() == changes_within(
                    old_model,
                    new_model,
                    inner,
                    old0.dom().union(new0.dom().difference(new@.dom())),
                ),
            ensures
                new@.dom() == Set::<K>::empty(),
            decreases new@.len(),
        {
            let ghost changes_before = changes.model();
            match take_first(&mut new) {
                None => {
                    break ;
                },
                Some((k, v)) => {
                    let ghost key = k;
                    let added = MapValueDiff::Added(v);
                    let ghost added_model = added.model();
                    changes.insert(k, added);
                    assert(changes.model() =~= changes_before.insert(key, added_model));
                },
            }
        }
        proof {
            assert(changes.model() =~= map_changes(old_model, new_model, inner));
            assert(changes.model().dom() =~= changes@.dom());
        }
        if changes.is_empty() {
            Diff::NotChanged
        } else {
            Diff::ChangedTo(changes)
        }
    }
}

/// A map diffed with itself is not changed.
pub proof fn lemma_map_diff_same<K: MapKey, V: Diffable>(m: Map<K, V::Model>)
    ensures
        BTreeMap::<K, V>::diff_model(m, m) is NotChanged,
{
    BTreeMap::<K, V>::lemma_not_changed_iff_same(m, m);
}

/// What the diff of two maps says of a key `k`: a key only in the new map is
/// reported as added, with its new value; a key only in the old map as
/// missing; a key in both with different values as changed, with the changeset
/// of the two values; and a key in neither, or in both with the same value,
/// is not reported. The diff as a whole is not changed exactly when no key is
/// reported, and else it is changed to the map of what is reported.
pub proof fn lemma_map_diff_entries<K: MapKey, V: Diffable>(
    old: Map<K, V::Model>,
    new: Map<K, V::Model>,
    k: K,
)
    ensures
        ({
            let changes = map_changes(old, new, value_diff::<V>());
            &&& !old.contains_key(k) && new.contains_key(k) ==> changes.contains_key(k)
                && changes[k] == MapValueDiffModel::<
                V::Model,
                <V::ChangeSet as Comparable>::Model,
            >::Added(new[k])
            &&& old.contains_key(k) && !new.contains_key(k) ==> changes.contains_key(k)
                && changes[k] is Missing
            &&& old.contains_key(k) && new.contains_key(k) && old[k] != new[k]
                ==> changes.contains_key(k) && V::diff_model(old[k], new[k]) is ChangedTo
                && changes[k] == MapValueDiffModel::<
                V::Model,
                <V::ChangeSet as Comparable>::Model,
            >::Changed(V::diff_model(old[k], new[k])->ChangedTo_0)
            &&& old.contains_key(k) && new.contains_key(k) && old[k] == new[k]
                ==> !changes.contains_key(k)
            &&& !old.contains_key(k) && !new.contains_key(k) ==> !changes.contains_key(k)
            &&& BTreeMap::<K, V>::diff_model(old, new) is NotChanged <==> changes.dom()
                == Set::<K>::empty()
            &&& !(changes.dom() == Set::<K>::empty()) ==> BTreeMap::<K, V>::diff_model(old, new)
                == Diff::ChangedTo(changes)
        }),
{
    if old.contains_key(k) && new.contains_key(k) {
        V::lemma_not_changed_iff_same(old[k], new[k]);
    }
}

} // verus!
