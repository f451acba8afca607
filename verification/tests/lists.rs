use change_set::hlist::{Concat, HList, HListIntoIterator, HZippable};

#[test]
fn prepend_puts_the_head_in_front() {
    assert_eq!(().prepend(1u8), (1u8, ()));
    assert_eq!((2u16, ()).prepend("a"), ("a", (2u16, ())));
}

#[test]
fn zip_pairs_position_by_position() {
    let left = (1u8, ("two", ()));
    let right = (true, (4u64, ()));
    assert_eq!(left.zip(right), ((1u8, true), (("two", 4u64), ())));
}

#[test]
fn zip_of_empty_lists() {
    let zipped: () = ().zip(());
    assert_eq!(zipped, ());
}

#[test]
fn concat_keeps_the_order() {
    let left = (1u8, (2u16, ()));
    let right = ("three", (4u64, ()));
    assert_eq!(left.concat(right), (1u8, (2u16, ("three", (4u64, ())))));
}

#[test]
fn concat_with_empty_lists() {
    assert_eq!(().concat((1u8, ())), (1u8, ()));
    assert_eq!((1u8, ()).concat(()), (1u8, ()));
    let nothing: () = ().concat(());
    assert_eq!(nothing, ());
}

#[test]
fn into_iter_yields_the_elements_in_order() {
    let list = (1u32, (2u32, (3u32, ())));
    assert_eq!(HListIntoIterator::<u32>::into_iter(list), vec![1, 2, 3]);
}

#[test]
fn into_iter_of_the_empty_list() {
    assert_eq!(HListIntoIterator::<u32>::into_iter(()), Vec::<u32>::new());
}

#[test]
fn zip_then_concat_then_into_iter() {
    let names = ("a", ("b", ()));
    let outcomes = (None::<String>, (Some("changed".to_string()), ()));
    let more = (("c", None::<String>), ());
    let all = names.zip(outcomes).concat(more);
    assert_eq!(
        HListIntoIterator::<(&str, Option<String>)>::into_iter(all),
        vec![("a", None), ("b", Some("changed".to_string())), ("c", None)]
    );
}
