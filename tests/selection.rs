use basecamp::selection::Listener;

fn names(n: usize) -> Vec<String> {
    (0..n).map(|i| format!("item{}", i)).collect()
}

#[test]
fn new_listener_has_no_highlight() {
    let l = Listener::new(names(3));
    assert_eq!(l.selected_index(), None);
    assert_eq!(l.get_selected(), None);
    assert_eq!(l.items().len(), 3);
}

#[test]
fn next_from_unset_starts_at_first() {
    let mut l = Listener::new(names(3));
    l.next();
    assert_eq!(l.selected_index(), Some(0));
    assert_eq!(l.get_selected(), Some(&"item0".to_string()));
}

#[test]
fn previous_from_unset_starts_at_first() {
    let mut l = Listener::new(names(3));
    l.previous();
    assert_eq!(l.selected_index(), Some(0));
}

#[test]
fn next_wraps_after_last() {
    for len in 1..6usize {
        let mut l = Listener::new(names(len));
        for k in 1..=len {
            l.next();
            assert_eq!(l.selected_index(), Some(k - 1));
        }
        l.next();
        assert_eq!(l.selected_index(), Some(0));
    }
}

#[test]
fn next_len_times_from_first_returns_to_first() {
    let mut l = Listener::new(names(4));
    l.next();
    assert_eq!(l.selected_index(), Some(0));
    for _ in 0..4 {
        l.next();
    }
    assert_eq!(l.selected_index(), Some(0));
}

#[test]
fn single_item_next_stays_on_it() {
    let mut l = Listener::new(names(1));
    l.next();
    assert_eq!(l.selected_index(), Some(0));
    l.next();
    assert_eq!(l.selected_index(), Some(0));
}

#[test]
fn previous_from_first_wraps_to_last() {
    let mut l = Listener::new(names(5));
    l.next();
    l.previous();
    assert_eq!(l.selected_index(), Some(4));
    assert_eq!(l.get_selected(), Some(&"item4".to_string()));
    l.previous();
    assert_eq!(l.selected_index(), Some(3));
}

#[test]
fn unselect_then_confirm_is_none() {
    let mut l = Listener::new(names(3));
    l.unselect();
    assert_eq!(l.get_selected(), None);
    l.next();
    l.next();
    assert!(l.get_selected().is_some());
    l.unselect();
    assert_eq!(l.get_selected(), None);
    assert_eq!(l.selected_index(), None);
}

#[test]
fn confirm_leaves_list_unchanged() {
    let mut l = Listener::new(names(2));
    l.next();
    let first = l.get_selected().cloned();
    let again = l.get_selected().cloned();
    assert_eq!(first, again);
    assert_eq!(l.items(), &names(2));
}

#[test]
fn get_item_reads_by_position() {
    let l = Listener::new(names(3));
    assert_eq!(l.get_item(2), "item2");
    assert_eq!(l.get_item(0), "item0");
}

#[test]
fn set_items_replaces_and_clears() {
    let mut l = Listener::new(names(3));
    l.next();
    l.set_items(vec!["a".to_string()]);
    assert_eq!(l.selected_index(), None);
    assert_eq!(l.items(), &vec!["a".to_string()]);
}
