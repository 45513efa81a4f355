use excelsheet::header::Header;

#[test]
fn new_without_inputs_is_absent() {
    assert_eq!(Header::new(None, None), Header::Absent);
}

#[test]
fn new_with_row_is_at() {
    assert_eq!(Header::new(Some(3), None), Header::At(3));
}

#[test]
fn new_with_names_is_with() {
    let names = vec!["a".to_string(), "b".to_string()];
    assert_eq!(Header::new(None, Some(names.clone())), Header::With(names));
}

#[test]
fn new_prefers_names_over_row() {
    let names = vec!["a".to_string()];
    assert_eq!(Header::new(Some(7), Some(names.clone())), Header::With(names));
}

#[test]
fn new_keeps_an_empty_list_of_names() {
    assert_eq!(Header::new(Some(0), Some(Vec::new())), Header::With(Vec::new()));
}

#[test]
fn offset_of_absent_is_zero() {
    assert_eq!(Header::Absent.header_offset(), 0);
}

#[test]
fn offset_of_names_is_zero() {
    assert_eq!(Header::With(vec!["x".to_string()]).header_offset(), 0);
}

#[test]
fn offset_of_row_is_one_more() {
    assert_eq!(Header::At(0).header_offset(), 1);
    assert_eq!(Header::At(5).header_offset(), 6);
    assert_eq!(Header::At(usize::MAX - 1).header_offset(), usize::MAX);
}

#[test]
fn checked_offset_is_the_offset_where_it_fits() {
    assert_eq!(Header::Absent.checked_offset(), Some(0));
    assert_eq!(Header::With(Vec::new()).checked_offset(), Some(0));
    assert_eq!(Header::At(0).checked_offset(), Some(1));
    assert_eq!(Header::At(41).checked_offset(), Some(42));
    assert_eq!(Header::At(usize::MAX - 1).checked_offset(), Some(usize::MAX));
    assert_eq!(Header::At(usize::MAX).checked_offset(), None);
}
