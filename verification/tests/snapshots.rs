use std::collections::BTreeMap;

use change_set::bounded::BoundedMap;
use change_set::diff::{Comparable, Diff, Diffable};
use change_set::map::MapValueDiff;
use change_set::snapshot::{collect_map, collect_nested_map};

#[test]
fn collect_map_holds_each_entry() {
    let map = collect_map(vec![(3u32, 30u8), (1, 10), (2, 20)]);
    let mut expected = BTreeMap::new();
    expected.insert(1u32, 10u8);
    expected.insert(2, 20);
    expected.insert(3, 30);
    assert_eq!(map, expected);
}

#[test]
fn collect_map_of_nothing_is_empty() {
    assert_eq!(collect_map(Vec::<(u32, u32)>::new()), BTreeMap::new());
}

#[test]
fn collect_map_keeps_the_last_entry_of_a_key() {
    let map = collect_map(vec![(1u32, 10u8), (1, 11)]);
    let mut expected = BTreeMap::new();
    expected.insert(1u32, 11u8);
    assert_eq!(map, expected);
}

#[test]
fn collect_nested_map_nests_by_first_key() {
    let map = collect_nested_map(vec![(1u32, 1u16, 11u8), (2, 1, 21), (1, 2, 12)]);
    let mut first = BTreeMap::new();
    first.insert(1u16, 11u8);
    first.insert(2, 12);
    let mut second = BTreeMap::new();
    second.insert(1u16, 21u8);
    let mut expected = BTreeMap::new();
    expected.insert(1u32, first);
    expected.insert(2, second);
    assert_eq!(map, expected);
}

#[test]
fn collect_nested_map_keeps_the_last_entry_of_two_keys() {
    let map = collect_nested_map(vec![(1u32, 1u16, 11u8), (1, 1, 99)]);
    let mut inner = BTreeMap::new();
    inner.insert(1u16, 99u8);
    let mut expected = BTreeMap::new();
    expected.insert(1u32, inner);
    assert_eq!(map, expected);
}

#[test]
fn collect_nested_map_of_nothing_is_empty() {
    assert_eq!(collect_nested_map(Vec::<(u32, u32, u32)>::new()), BTreeMap::new());
}

fn map_of(entries: &[(u32, u32)]) -> BTreeMap<u32, u32> {
    let mut map = BTreeMap::new();
    for (k, v) in entries {
        map.insert(*k, *v);
    }
    map
}

#[test]
fn bounded_map_within_its_bound() {
    let bounded = match BoundedMap::try_new(map_of(&[(1, 10), (2, 20)]), 2) {
        Ok(bounded) => bounded,
        Err(_) => panic!("two entries are within a bound of two"),
    };
    assert_eq!(bounded.bound(), 2);
    assert_eq!(bounded.len(), 2);
    assert_eq!(bounded.into_inner(), map_of(&[(1, 10), (2, 20)]));
}

#[test]
fn bounded_map_over_its_bound() {
    match BoundedMap::try_new(map_of(&[(1, 10), (2, 20)]), 1) {
        Ok(_) => panic!("two entries are over a bound of one"),
        Err(map) => assert_eq!(map, map_of(&[(1, 10), (2, 20)])),
    }
}

#[test]
fn bounded_map_with_bound_zero() {
    assert!(BoundedMap::try_new(map_of(&[]), 0).is_ok());
    assert!(BoundedMap::try_new(map_of(&[(1, 1)]), 0).is_err());
}

#[test]
fn bounded_maps_diff_as_the_maps_they_hold() {
    let old = BoundedMap::try_new(map_of(&[(1, 10), (2, 20)]), 5).unwrap();
    let new = BoundedMap::try_new(map_of(&[(2, 21), (3, 30)]), 3).unwrap();
    let mut expected = BTreeMap::new();
    expected.insert(1u32, MapValueDiff::<u32>::Missing);
    expected.insert(2u32, MapValueDiff::<u32>::Changed(21));
    expected.insert(3u32, MapValueDiff::<u32>::Added(30));
    assert_eq!(old.diff(new), Diff::ChangedTo(expected));
}

#[test]
fn bounded_maps_with_other_bounds_and_the_same_entries() {
    let old = BoundedMap::try_new(map_of(&[(1, 10)]), 5).unwrap();
    let new = BoundedMap::try_new(map_of(&[(1, 10)]), 3).unwrap();
    assert!(old.same_as(&new));
    assert_eq!(old.diff(new), Diff::NotChanged);
}

#[test]
fn public_keys_are_compared_by_their_bytes() {
    let a = [7u8; 32];
    let mut b = [7u8; 32];
    assert_eq!(a.diff(b), Diff::NotChanged);
    b[31] = 8;
    assert!(!a.same_as(&b));
    assert_eq!(a.diff(b), Diff::ChangedTo(b));
}

#[test]
fn key_of_bytes_spells_two_numbers() {
    let mut bytes = [0u8; 32];
    assert_eq!(change_set::key::key_of_bytes(&bytes), (0, 0));
    bytes[0] = 1;
    bytes[1] = 2;
    bytes[16] = 3;
    bytes[31] = 0x80;
    assert_eq!(change_set::key::key_of_bytes(&bytes), (0x0201, (0x80u128 << 120) | 3));
    assert_eq!(change_set::key::key_of_bytes(&[0xffu8; 32]), (u128::MAX, u128::MAX));
}

#[test]
fn key_of_bytes_tells_bytes_apart() {
    let a = [7u8; 32];
    let mut b = [7u8; 32];
    b[15] = 8;
    let mut c = [7u8; 32];
    c[16] = 8;
    assert_ne!(change_set::key::key_of_bytes(&a), change_set::key::key_of_bytes(&b));
    assert_ne!(change_set::key::key_of_bytes(&a), change_set::key::key_of_bytes(&c));
    assert_ne!(change_set::key::key_of_bytes(&b), change_set::key::key_of_bytes(&c));
}
