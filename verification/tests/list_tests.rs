use cmp_tui::stateful_list::{ListState, StatefulList, TabsState};

fn string_items(items: &[&str]) -> Vec<String> {
    let mut v: Vec<String> = Vec::new();
    for s in items {
        v.push((*s).to_string());
    }
    v
}

#[test]
fn list_state_default_is_unselected() {
    let state = ListState::default();
    assert_eq!(state.offset, 0);
    assert_eq!(state.selected(), None);
}

#[test]
fn list_state_select_none_resets_offset() {
    let mut state = ListState { offset: 7, selected: Some(3) };
    state.select(None);
    assert_eq!(state.offset, 0);
    assert_eq!(state.selected(), None);
    state.offset = 5;
    state.select(Some(2));
    assert_eq!(state.offset, 5);
    assert_eq!(state.selected(), Some(2));
}

#[test]
fn next_wraps_at_the_end() {
    let mut list = StatefulList::with_items(string_items(&["a", "b", "c"]));
    list.next();
    assert_eq!(list.state.selected(), Some(0));
    list.next();
    assert_eq!(list.state.selected(), Some(1));
    list.next();
    assert_eq!(list.state.selected(), Some(2));
    list.next();
    assert_eq!(list.state.selected(), Some(0));
}

#[test]
fn previous_wraps_at_the_start() {
    let mut list = StatefulList::with_items(string_items(&["a", "b", "c"]));
    list.state.select(Some(0));
    list.previous();
    assert_eq!(list.state.selected(), Some(2));
    list.previous();
    assert_eq!(list.state.selected(), Some(1));
}

#[test]
fn moves_on_empty_list_do_nothing() {
    let mut list: StatefulList<String> = StatefulList::new();
    list.next();
    assert_eq!(list.state.selected(), None);
    list.previous();
    assert_eq!(list.state.selected(), None);
    assert_eq!(list.items.len(), 0);
}

#[test]
fn next_applied_len_times_is_the_identity() {
    let mut list = StatefulList::with_items(string_items(&["a", "b", "c"]));
    list.state.select(Some(1));
    for _ in 0..3 {
        list.next();
    }
    assert_eq!(list.state.selected(), Some(1));

    let mut from_last = StatefulList::with_items(string_items(&["x", "y", "z", "w"]));
    from_last.state.select(Some(3));
    for _ in 0..4 {
        from_last.next();
    }
    assert_eq!(from_last.state.selected(), Some(3));
}

#[test]
fn unselect_clears_selection_and_offset() {
    let mut list = StatefulList::with_items(string_items(&["a", "b"]));
    list.state.select(Some(1));
    list.state.offset = 1;
    list.unselect();
    assert_eq!(list.state.selected(), None);
    assert_eq!(list.state.offset, 0);
}

#[test]
fn tabs_cycle_forward_and_backward() {
    let mut tabs = TabsState::new(vec!["|<<", ">>", ">>|"]);
    assert_eq!(tabs.index, 0);
    tabs.next();
    assert_eq!(tabs.index, 1);
    tabs.next();
    assert_eq!(tabs.index, 2);
    tabs.next();
    assert_eq!(tabs.index, 0);
    tabs.previous();
    assert_eq!(tabs.index, 2);
    tabs.previous();
    assert_eq!(tabs.index, 1);
}
