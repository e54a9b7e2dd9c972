use cmp_tui::stateful_selected_list::StatefulSelectedList;

fn string_items(items: &[&str]) -> Vec<String> {
    let mut v: Vec<String> = Vec::new();
    for s in items {
        v.push((*s).to_string());
    }
    v
}

#[test]
fn add_highlight_prefixes_the_selected_row() {
    let mut list = StatefulSelectedList::new(string_items(&["first", "second", "third"]));
    list.next();
    list.calc_on_display(22, 5, 9);
    list.add_highlighting_element("> ");
    assert_eq!(list.on_display, string_items(&["first", "> second", "third"]));
}

#[test]
fn add_then_remove_restores_the_visible_content() {
    let mut list = StatefulSelectedList::new(string_items(&["first", "second", "third"]));
    list.next();
    list.calc_on_display(22, 5, 9);
    let before = list.on_display.clone();
    list.add_highlighting_element("> ");
    list.remove_highlighting_element('>');
    assert_eq!(list.on_display, before);
}

#[test]
fn remove_without_add_leaves_plain_rows_alone() {
    let mut list = StatefulSelectedList::new(string_items(&["first", "second"]));
    list.calc_on_display(22, 5, 9);
    let before = list.on_display.clone();
    list.remove_highlighting_element('>');
    assert_eq!(list.on_display, before);
}

#[test]
fn remove_strips_every_row_that_begins_with_the_marker() {
    // The removal is by first character, not by memory of an addition:
    // a row that happens to begin with the marker loses two characters.
    let mut list = StatefulSelectedList::new(string_items(&[">ab", "cd"]));
    list.calc_on_display(22, 5, 9);
    list.remove_highlighting_element('>');
    assert_eq!(list.on_display, string_items(&["b", "cd"]));
}

#[test]
fn remove_never_touches_rows_shorter_than_the_marker() {
    let mut list = StatefulSelectedList::new(string_items(&[">", ""]));
    list.calc_on_display(22, 5, 9);
    list.remove_highlighting_element('>');
    assert_eq!(list.on_display, string_items(&[">", ""]));
}

#[test]
fn highlight_on_empty_viewport_is_a_no_op() {
    let mut list = StatefulSelectedList::new(Vec::new());
    list.calc_on_display(22, 5, 9);
    list.add_highlighting_element("> ");
    list.remove_highlighting_element('>');
    assert_eq!(list.on_display.len(), 0);
}

#[test]
fn selected_element_reflects_the_screen_row() {
    let mut list = StatefulSelectedList::new(string_items(&["one", "two", "three"]));
    list.next();
    list.next();
    list.calc_on_display(22, 4, 9);
    assert!(list.has_visible_selection());
    assert_eq!(list.get_selected_element(), "three");
    assert_eq!(list.get_selected_index(), 2);
}
