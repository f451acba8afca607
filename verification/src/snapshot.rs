use crate::key::{lawful_order, MapKey};
use std::collections::BTreeMap;
use vstd::prelude::*;

verus! {

/// The map that holds the entries in `entries`. Where several entries have
/// the same key, the last of them counts.
pub open spec fn entries_map<K, V>(entries: Seq<(K, V)>) -> Map<K, V>
    decreases entries.len(),
{
    if entries.len() == 0 {
        Map::empty()
    } else {
        entries_map(entries.drop_last()).insert(entries.last().0, entries.last().1)
    }
}

/// The map of maps that holds the entries in `entries`, each under its first
/// key and there under its second key. Where several entries have the same
/// two keys, the last of them counts.
pub open spec fn nested_entries_map<K1, K2, V>(entries: Seq<(K1, K2, V)>) -> Map<K1, Map<K2, V>>
    decreases entries.len(),
{
    if entries.len() == 0 {
        Map::empty()
    } else {
        let earlier = nested_entries_map(entries.drop_last());
        let (k1, k2, v) = entries.last();
        let inner = if earlier.contains_key(k1) {
            earlier[k1]
        } else {
            Map::empty()
        };
        earlier.insert(k1, inner.insert(k2, v))
    }
}

/// What a map of maps holds: under each first key the entries of the map that
/// stands there.
pub open spec fn nested_view<K1, K2, V>(map: BTreeMap<K1, BTreeMap<K2, V>>) -> Map<
    K1,
    Map<K2, V>,
> {
    map@.map_values(|inner: BTreeMap<K2, V>| inner@)
}

/// A map of maps made from entries has a first key exactly where an entry has
/// it, has a second key under it exactly where an entry has both, and holds
/// no empty map.
pub proof fn lemma_nested_entries_map<K1, K2, V>(entries: Seq<(K1, K2, V)>, k1: K1, k2: K2)
    ensures
        nested_entries_map(entries).contains_key(k1) <==> exists|i: int|
            0 <= i < entries.len() && (#[trigger] entries[i]).0 == k1,
        nested_entries_map(entries).contains_key(k1) && nested_entries_map(
            entries,
        )[k1].contains_key(k2) <==> exists|i: int|
            0 <= i < entries.len() && (#[trigger] entries[i]).0 == k1 && entries[i].1 == k2,
        nested_entries_map(entries).contains_key(k1) ==> nested_entries_map(entries)[k1].dom()
            != Set::<K2>::empty(),
    decreases entries.len(),
{
    if entries.len() > 0 {
        let earlier = entries.drop_last();
        let last = entries.len() - 1;
        lemma_nested_entries_map(earlier, k1, k2);
        let map = nested_entries_map(entries);
        if exists|i: int| 0 <= i < earlier.len() && (#[trigger] earlier[i]).0 == k1 {
            let i = choose|i: int| 0 <= i < earlier.len() && (#[trigger] earlier[i]).0 == k1;
        }
        if exists|i: int|
            0 <= i < earlier.len() && (#[trigger] earlier[i]).0 == k1 && earlier[i].1 == k2 {
            let i = choose|i: int|
                0 <= i < earlier.len() && (#[trigger] earlier[i]).0 == k1 && earlier[i].1 == k2;
        }
        if exists|i: int| 0 <= i < entries.len() && (#[trigger] entries[i]).0 == k1 {
            let i = choose|i: int| 0 <= i < entries.len() && (#[trigger] entries[i]).0 == k1;
            if i < last {
                assert(earlier[i].0 == k1);
            }
        }
        if exists|i: int|
            0 <= i < entries.len() && (#[trigger] entries[i]).0 == k1 && entries[i].1 == k2 {
            let i = choose|i: int|
                0 <= i < entries.len() && (#[trigger] entries[i]).0 == k1 && entries[i].1 == k2;
            if i < last {
                assert(earlier[i].0 == k1 && earlier[i].1 == k2);
            }
        }
        if map.contains_key(k1) {
            if entries[last].0 == k1 {
                assert(map[k1].dom().contains(entries[last].1));
            }
        }
    }
}

/// Collects entries into a map.
pub fn collect_map<K: MapKey, V>(entries: Vec<(K, V)>) -> (map: BTreeMap<K, V>)
    ensures
        map@ == entries_map(entries@),
{
    proof {
        K::lemma_lawful_order();
    }
    let mut map: BTreeMap<K, V> = BTreeMap::new();
    let ghost all = entries@;
    for entry in it: entries.into_iter()
        invariant
            lawful_order::<K>(),
            it.seq() == all,
            map@ == entries_map(all.take(it.index())),
    {
        assert(all.take(it.index() + 1).drop_last() =~= all.take(it.index()));
        let (k, v) = entry;
        map.insert(k, v);
    }
    assert(all.take(all.len() as int) =~= all);
    map
}

/// Collects entries with two keys into a map of maps.
pub fn collect_nested_map<K1: MapKey, K2: MapKey, V>(entries: Vec<(K1, K2, V)>) -> (map: BTreeMap<
    K1,
    BTreeMap<K2, V>,
>)
    ensures
        nested_view(map) == nested_entries_map(entries@),
{
    proof {
        K1::lemma_lawful_order();
        K2::lemma_lawful_order();
    }
    let mut map: BTreeMap<K1, BTreeMap<K2, V>> = BTreeMap::new();
    let ghost all = entries@;
    for entry in it: entries.into_iter()
        invariant
            lawful_order::<K1>(),
            lawful_order::<K2>(),
            it.seq() == all,
            nested_view(map) == nested_entries_map(all.take(it.index())),
    {
        assert(all.take(it.index() + 1).drop_last() =~= all.take(it.index()));
        let ghost before = nested_view(map);
        let (k1, k2, v) = entry;
        let mut inner = match map.remove(&k1) {
            Some(found) => found,
            None => BTreeMap::new(),
        };
        inner.insert(k2, v);
        let ghost inner_view = inner@;
        map.insert(k1, inner);
        assert(nested_view(map) =~= before.insert(k1, inner_view));
    }
    assert(all.take(all.len() as int) =~= all);
    map
}

} // verus!
