use std::collections::BTreeMap;
use std::sync::Mutex;

use change_set::check_storage::CheckStorage;
use change_set::do_action;
use change_set::hlist::PalletStorageHList;
use change_set::map::MapValueDiff;
use change_set::option::OptionDiff;

static VALUE_ONE: Mutex<Option<u32>> = Mutex::new(None);
static MAP_ONE: Mutex<BTreeMap<u32, u32>> = Mutex::new(BTreeMap::new());

struct ValueOne;

struct MapOne;

impl CheckStorage for ValueOne {
    type Value = Option<u32>;

    fn name() -> (&'static str, &'static str) {
        ("Example", "A")
    }

    fn current_value() -> Option<u32> {
        *VALUE_ONE.lock().unwrap()
    }
}

impl CheckStorage for MapOne {
    type Value = BTreeMap<u32, u32>;

    fn name() -> (&'static str, &'static str) {
        ("Example", "B")
    }

    fn current_value() -> BTreeMap<u32, u32> {
        MAP_ONE.lock().unwrap().clone()
    }
}

#[test]
fn declared_changes_are_met() {
    let mut expected_map = BTreeMap::new();
    expected_map.insert(4u32, MapValueDiff::<u32>::Added(40));

    let out = do_action::<(ValueOne, (MapOne, ())), _, _>(|| {
        *VALUE_ONE.lock().unwrap() = Some(42);
        MAP_ONE.lock().unwrap().insert(4, 40);
        "done"
    })
    .check_storage::<ValueOne, _>(OptionDiff::WasNoneNowSome(42))
    .check_storage::<MapOne, _>(expected_map)
    .assert_storage_changes();

    assert!(matches!(out, Ok("done")));
}

static VALUE_TWO: Mutex<Option<u32>> = Mutex::new(None);
static MAP_TWO: Mutex<BTreeMap<u32, u32>> = Mutex::new(BTreeMap::new());

struct ValueTwo;

struct MapTwo;

impl CheckStorage for ValueTwo {
    type Value = Option<u32>;

    fn name() -> (&'static str, &'static str) {
        ("Example", "A")
    }

    fn current_value() -> Option<u32> {
        *VALUE_TWO.lock().unwrap()
    }
}

impl CheckStorage for MapTwo {
    type Value = BTreeMap<u32, u32>;

    fn name() -> (&'static str, &'static str) {
        ("Example", "B")
    }

    fn current_value() -> BTreeMap<u32, u32> {
        MAP_TWO.lock().unwrap().clone()
    }
}

#[test]
fn undeclared_change_is_reported() {
    let out = do_action::<(ValueTwo, (MapTwo, ())), _, _>(|| {
        *VALUE_TWO.lock().unwrap() = Some(42);
        MAP_TWO.lock().unwrap().insert(4, 40);
        7u8
    })
    .check_storage::<ValueTwo, _>(OptionDiff::WasNoneNowSome(42))
    .assert_storage_changes();

    match out {
        Ok(_) => panic!("the change of B was not declared"),
        Err(violations) => {
            assert_eq!(violations.result, 7);
            assert_eq!(
                violations.report,
                "ERROR at storage Example/B: Expected no changes, found {\n    4: Added(\n        40,\n    ),\n}"
            );
        },
    }
}

static VALUE_THREE: Mutex<Option<u32>> = Mutex::new(None);
static MAP_THREE: Mutex<BTreeMap<u32, u32>> = Mutex::new(BTreeMap::new());

struct ValueThree;

struct MapThree;

impl CheckStorage for ValueThree {
    type Value = Option<u32>;

    fn name() -> (&'static str, &'static str) {
        ("Example", "A")
    }

    fn current_value() -> Option<u32> {
        *VALUE_THREE.lock().unwrap()
    }
}

impl CheckStorage for MapThree {
    type Value = BTreeMap<u32, u32>;

    fn name() -> (&'static str, &'static str) {
        ("Example", "B")
    }

    fn current_value() -> BTreeMap<u32, u32> {
        MAP_THREE.lock().unwrap().clone()
    }
}

#[test]
fn other_change_than_declared_is_reported() {
    let out = do_action::<(ValueThree, (MapThree, ())), _, _>(|| {
        *VALUE_THREE.lock().unwrap() = Some(42);
    })
    .check_storage::<ValueThree, _>(OptionDiff::WasNoneNowSome(41))
    .assert_storage_changes();

    match out {
        Ok(()) => panic!("A was set to another value than declared"),
        Err(violations) => {
            assert_eq!(
                violations.report,
                "ERROR at storage Example/A: expected change of WasNoneNowSome(\n    41,\n), found WasNoneNowSome(\n    42,\n)"
            );
        },
    }
}

static VALUE_FOUR: Mutex<Option<u32>> = Mutex::new(None);
static MAP_FOUR: Mutex<BTreeMap<u32, u32>> = Mutex::new(BTreeMap::new());

struct ValueFour;

struct MapFour;

impl CheckStorage for ValueFour {
    type Value = Option<u32>;

    fn name() -> (&'static str, &'static str) {
        ("Example", "A")
    }

    fn current_value() -> Option<u32> {
        *VALUE_FOUR.lock().unwrap()
    }
}

impl CheckStorage for MapFour {
    type Value = BTreeMap<u32, u32>;

    fn name() -> (&'static str, &'static str) {
        ("Example", "B")
    }

    fn current_value() -> BTreeMap<u32, u32> {
        MAP_FOUR.lock().unwrap().clone()
    }
}

#[test]
fn nothing_declared_and_nothing_changed() {
    let out = do_action::<(ValueFour, (MapFour, ())), _, _>(|| 5u64).assert_storage_changes();
    assert!(matches!(out, Ok(5)));
}

static VALUE_FIVE: Mutex<Option<u32>> = Mutex::new(None);
static MAP_FIVE: Mutex<BTreeMap<u32, u32>> = Mutex::new(BTreeMap::new());

struct ValueFive;

struct MapFive;

impl CheckStorage for ValueFive {
    type Value = Option<u32>;

    fn name() -> (&'static str, &'static str) {
        ("Example", "A")
    }

    fn current_value() -> Option<u32> {
        *VALUE_FIVE.lock().unwrap()
    }
}

impl CheckStorage for MapFive {
    type Value = BTreeMap<u32, u32>;

    fn name() -> (&'static str, &'static str) {
        ("Example", "B")
    }

    fn current_value() -> BTreeMap<u32, u32> {
        MAP_FIVE.lock().unwrap().clone()
    }
}

#[test]
fn all_violations_are_reported_together() {
    let out = do_action::<(ValueFive, (MapFive, ())), _, _>(|| {
        MAP_FIVE.lock().unwrap().insert(1, 10);
    })
    .check_storage::<ValueFive, _>(OptionDiff::WasNoneNowSome(1))
    .assert_storage_changes();

    match out {
        Ok(()) => panic!("both storages violate what was declared"),
        Err(violations) => {
            assert_eq!(
                violations.report,
                "ERROR at storage Example/B: Expected no changes, found {\n    1: Added(\n        10,\n    ),\n}\n\nERROR at storage Example/A: expected change of WasNoneNowSome(\n    1,\n), found no changes"
            );
        },
    }
}

static VALUE_SIX: Mutex<Option<u32>> = Mutex::new(None);
static MAP_SIX: Mutex<BTreeMap<u32, u32>> = Mutex::new(BTreeMap::new());

struct ValueSix;

struct MapSix;

impl CheckStorage for ValueSix {
    type Value = Option<u32>;

    fn name() -> (&'static str, &'static str) {
        ("Example", "A")
    }

    fn current_value() -> Option<u32> {
        *VALUE_SIX.lock().unwrap()
    }
}

impl CheckStorage for MapSix {
    type Value = BTreeMap<u32, u32>;

    fn name() -> (&'static str, &'static str) {
        ("Example", "B")
    }

    fn current_value() -> BTreeMap<u32, u32> {
        MAP_SIX.lock().unwrap().clone()
    }
}

#[test]
fn storages_are_observed_and_named_in_order() {
    *VALUE_SIX.lock().unwrap() = Some(6);
    MAP_SIX.lock().unwrap().insert(6, 60);

    assert_eq!(
        <(ValueSix, (MapSix, ())) as PalletStorageHList>::names(),
        (("Example", "A"), (("Example", "B"), ()))
    );
    let mut map = BTreeMap::new();
    map.insert(6u32, 60u32);
    assert_eq!(
        <(ValueSix, (MapSix, ())) as PalletStorageHList>::current_value(),
        (Some(6), (map, ()))
    );
    assert_eq!(<() as PalletStorageHList>::names(), ());
}

#[test]
fn storage_is_diffed_against_what_is_observed() {
    *VALUE_SIX.lock().unwrap() = Some(6);
    assert_eq!(
        ValueSix::diff_storage_changes_with_expected_changes(None),
        change_set::Diff::ChangedTo(OptionDiff::WasNoneNowSome(6))
    );
    assert_eq!(
        ValueSix::diff_storage_changes_with_expected_changes(Some(6)),
        change_set::Diff::NotChanged
    );
}

static FIRST: Mutex<u32> = Mutex::new(0);
static SECOND: Mutex<u32> = Mutex::new(0);
static THIRD: Mutex<u32> = Mutex::new(0);

struct First;

struct Second;

struct Third;

impl CheckStorage for First {
    type Value = u32;

    fn name() -> (&'static str, &'static str) {
        ("Counters", "First")
    }

    fn current_value() -> u32 {
        *FIRST.lock().unwrap()
    }
}

impl CheckStorage for Second {
    type Value = u32;

    fn name() -> (&'static str, &'static str) {
        ("Counters", "Second")
    }

    fn current_value() -> u32 {
        *SECOND.lock().unwrap()
    }
}

impl CheckStorage for Third {
    type Value = u32;

    fn name() -> (&'static str, &'static str) {
        ("Counters", "Third")
    }

    fn current_value() -> u32 {
        *THIRD.lock().unwrap()
    }
}

#[test]
fn checking_one_storage_leaves_the_others_in_order() {
    let out = do_action::<(First, (Second, (Third, ()))), _, _>(|| {
        *FIRST.lock().unwrap() = 1;
        *SECOND.lock().unwrap() = 2;
        *THIRD.lock().unwrap() = 3;
    })
    .check_storage::<Second, _>(20)
    .assert_storage_changes();

    match out {
        Ok(()) => panic!("no storage did what was declared"),
        Err(violations) => {
            assert_eq!(
                violations.report,
                "ERROR at storage Counters/First: Expected no changes, found 1\n\nERROR at storage Counters/Third: Expected no changes, found 3\n\nERROR at storage Counters/Second: expected change of 20, found 2"
            );
        },
    }
}

#[test]
fn assertions_between_given_values() {
    let assertions = change_set::StorageChecker::<(First, (Second, (Third, ()))), ()>::new()
        .check_storage::<Second, _>(20)
        .check_storage::<Third, _>(30)
        .assertions_between((0, ()), (1, ()), (0, (0, ())), (30, (2, ())));
    assert_eq!(
        assertions,
        vec![
            (("Counters", "First"), Some("Expected no changes, found 1".to_string())),
            (("Counters", "Third"), None),
            (("Counters", "Second"), Some("expected change of 20, found 2".to_string())),
        ]
    );
}

#[test]
fn assertions_between_unchanged_values() {
    let assertions = change_set::StorageChecker::<(First, (Second, ())), ()>::new()
        .check_storage::<First, _>(1)
        .assertions_between((5, ()), (5, ()), (7, ()), (7, ()));
    assert_eq!(
        assertions,
        vec![
            (("Counters", "Second"), None),
            (("Counters", "First"), Some("expected change of 1, found no changes".to_string())),
        ]
    );
}

#[test]
fn check_reports_on_each_storage() {
    let (r, assertions) =
        change_set::StorageChecker::<(ValueSix, ()), ()>::new().check(|| "ran");
    assert_eq!(r, "ran");
    assert_eq!(assertions, vec![(("Example", "A"), None)]);
}
