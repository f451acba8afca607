use change_set::report::{collect_errors, conclude, join_lines};
use change_set::text::{error_at, missing_change, unexpected_change, wrong_change};

#[test]
fn message_for_an_unexpected_change() {
    assert_eq!(unexpected_change("42"), "Expected no changes, found 42");
    assert_eq!(unexpected_change(""), "Expected no changes, found ");
}

#[test]
fn message_for_a_missing_change() {
    assert_eq!(missing_change("41"), "expected change of 41, found no changes");
}

#[test]
fn message_for_a_wrong_change() {
    assert_eq!(wrong_change("41", "42"), "expected change of 41, found 42");
}

#[test]
fn line_for_a_storage() {
    assert_eq!(
        error_at(("Example", "Something"), "expected change of 41, found 42"),
        "ERROR at storage Example/Something: expected change of 41, found 42"
    );
}

#[test]
fn errors_are_collected_in_order() {
    let assertions = vec![
        (("P", "A"), Some("first".to_string())),
        (("P", "B"), None),
        (("Q", "C"), Some("second".to_string())),
    ];
    assert_eq!(
        collect_errors(&assertions),
        vec!["ERROR at storage P/A: first".to_string(), "ERROR at storage Q/C: second".to_string()]
    );
}

#[test]
fn no_errors_where_nothing_is_violated() {
    let assertions = vec![(("P", "A"), None), (("P", "B"), None)];
    assert_eq!(collect_errors(&assertions), Vec::<String>::new());
    assert_eq!(collect_errors(&Vec::new()), Vec::<String>::new());
}

#[test]
fn lines_are_joined_with_an_empty_line_between() {
    assert_eq!(join_lines(&Vec::new()), "");
    assert_eq!(join_lines(&vec!["one".to_string()]), "one");
    assert_eq!(join_lines(&vec!["one".to_string(), "two".to_string()]), "one\n\ntwo");
    assert_eq!(
        join_lines(&vec!["one".to_string(), "two".to_string(), "three".to_string()]),
        "one\n\ntwo\n\nthree"
    );
}

#[test]
fn conclude_hands_the_result_on_where_nothing_is_violated() {
    let out = conclude(5u8, vec![(("P", "A"), None)]);
    assert!(matches!(out, Ok(5)));
    let out = conclude("r", Vec::new());
    assert!(matches!(out, Ok("r")));
}

#[test]
fn conclude_reports_all_violations() {
    let out = conclude(
        5u8,
        vec![
            (("P", "A"), Some("first".to_string())),
            (("P", "B"), None),
            (("P", "C"), Some("second".to_string())),
        ],
    );
    match out {
        Ok(_) => panic!("two storages are violated"),
        Err(violations) => {
            assert_eq!(violations.result, 5);
            assert_eq!(
                violations.report,
                "ERROR at storage P/A: first\n\nERROR at storage P/C: second"
            );
        },
    }
}
