use clickdown::tui::helpers::SelectableList;

#[test]
fn test_empty_list() {
    let list: SelectableList<i32> = SelectableList::empty();
    assert!(list.items().is_empty());
}

#[test]
fn test_select_first() {
    let mut list = SelectableList::empty();
    list.items_mut().extend(vec![1, 2, 3]);
    list.select_first();
    assert_eq!(list.selected(), Some(&1));
}

#[test]
fn test_select_next_wraps() {
    let mut list = SelectableList::empty();
    list.items_mut().extend(vec![1, 2, 3]);
    list.select_first();
    list.select_next();
    list.select_next();
    list.select_next();
    assert_eq!(list.selected(), Some(&1));
}

#[test]
fn test_select_previous_wraps() {
    let mut list = SelectableList::empty();
    list.items_mut().extend(vec![1, 2, 3]);
    list.select_first();
    list.select_previous();
    assert_eq!(list.selected(), Some(&3));
}

#[test]
fn test_select_by() {
    let mut list = SelectableList::empty();
    list.items_mut().extend(vec!["a", "b", "c"]);
    assert!(list.select_by(|&x| x == "b"));
    assert_eq!(list.selected(), Some(&"b"));

    assert!(!list.select_by(|&x| x == "z"));
}

#[test]
fn test_select_none() {
    let mut list = SelectableList::empty();
    list.items_mut().extend(vec![1, 2, 3]);
    list.select_first();
    list.select(None);
    assert_eq!(list.selected(), None);
}


#[test]
fn select_next_then_previous_returns() {
    let mut list = SelectableList::empty();
    list.items_mut().extend(vec![10, 20, 30, 40]);
    list.select(Some(2));
    list.select_next();
    assert_eq!(list.state(), Some(3));
    list.select_next();
    assert_eq!(list.state(), Some(0));
    list.select_previous();
    list.select_previous();
    assert_eq!(list.state(), Some(2));
    list.select(Some(9));
    assert_eq!(list.state(), Some(2));
}

#[test]
fn empty_list_ignores_moves() {
    let mut list: SelectableList<u8> = SelectableList::empty();
    list.select_next();
    list.select_previous();
    list.select_first();
    assert_eq!(list.state(), None);
    assert_eq!(list.selected(), None);
}
