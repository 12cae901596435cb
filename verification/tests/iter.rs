use pg_bridge::iter::{SetOfIterator, TableIterator};

#[test]
fn set_of_iterator_hands_rows_out_in_order() {
    let mut rows = SetOfIterator::new(vec!["a", "b", "c"]);
    assert_eq!(rows.next(), Some("a"));
    assert_eq!(rows.next(), Some("b"));
    assert_eq!(rows.next(), Some("c"));
    assert_eq!(rows.next(), None);
    assert_eq!(rows.next(), None);
}

#[test]
fn table_iterator_hands_tuples_out_in_order() {
    let mut rows = TableIterator::new(vec![(1, "x"), (2, "y")]);
    assert_eq!(rows.next(), Some((1, "x")));
    assert_eq!(rows.next(), Some((2, "y")));
    assert_eq!(rows.next(), None);
}

#[test]
fn once_is_a_single_tuple_table() {
    let mut rows = TableIterator::once((7, String::from("only")));
    assert_eq!(rows.next(), Some((7, String::from("only"))));
    assert_eq!(rows.next(), None);
}

#[test]
fn empty_iterators_are_done_immediately() {
    let mut rows: SetOfIterator<i32> = SetOfIterator::new(vec![]);
    assert_eq!(rows.next(), None);
    let mut tuples: TableIterator<i32> = TableIterator::new(vec![]);
    assert_eq!(tuples.next(), None);
}
