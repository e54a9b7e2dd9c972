use cmp_tui::stateful_selected_list::StatefulSelectedList;

fn string_items(items: &[&str]) -> Vec<String> {
    let mut v: Vec<String> = Vec::new();
    for s in items {
        v.push((*s).to_string());
    }
    v
}

// Geometry passed to calc_on_display includes one cell of border on each
// side, so an inner viewport of w columns and h rows is (w + 2, h + 2).

#[test]
fn selection_below_window_scrolls_minimally() {
    // Three rows, two visible: selecting the third shows rows two and three.
    let mut list = StatefulSelectedList::new(string_items(&["A", "B", "C"]));
    list.next();
    list.next();
    assert_eq!(list.get_selected_index(), 2);
    list.calc_on_display(22, 4, 9);
    assert_eq!(list.all_elements.state.offset, 1);
    assert_eq!(list.on_display, string_items(&["B", "C"]));
}

#[test]
fn selection_above_window_scrolls_back_up() {
    let mut list = StatefulSelectedList::new(string_items(&["A", "B", "C", "D"]));
    list.next();
    list.next();
    list.next();
    list.calc_on_display(22, 4, 9);
    assert_eq!(list.all_elements.state.offset, 2);
    // Going back to the first row pulls the window up to it.
    list.reset_selection();
    list.calc_on_display(22, 4, 9);
    assert_eq!(list.all_elements.state.offset, 0);
    assert_eq!(list.on_display, string_items(&["A", "B"]));
}

#[test]
fn offset_stays_within_bounds() {
    let mut list = StatefulSelectedList::new(string_items(&["a", "b", "c", "d", "e"]));
    for _ in 0..4 {
        list.next();
    }
    list.calc_on_display(22, 4, 9);
    let offset = list.all_elements.state.offset;
    let selection = list.get_selected_index();
    let height = 2;
    // selection - height + 1 <= offset <= selection, 0 <= offset <= len - height
    assert!(offset + height >= selection + 1);
    assert!(offset <= selection);
    assert!(offset <= 5 - height);
}

#[test]
fn resize_resets_the_window() {
    let mut list = StatefulSelectedList::new(string_items(&["A", "B", "C", "D"]));
    for _ in 0..3 {
        list.next();
    }
    list.calc_on_display(22, 4, 9);
    assert_eq!(list.all_elements.state.offset, 2);
    // A taller viewport shows everything again from the top.
    list.calc_on_display(22, 6, 9);
    assert_eq!(list.all_elements.state.offset, 0);
    assert_eq!(list.on_display, string_items(&["A", "B", "C", "D"]));
}

#[test]
fn empty_list_renders_nothing() {
    let mut list = StatefulSelectedList::new(Vec::new());
    list.calc_on_display(22, 4, 9);
    assert_eq!(list.on_display.len(), 0);
    assert_eq!(list.all_elements.state.offset, 0);
}

#[test]
fn tiny_viewport_renders_nothing_but_does_not_fail() {
    let mut list = StatefulSelectedList::new(string_items(&["A", "B"]));
    list.calc_on_display(1, 1, 9);
    assert_eq!(list.on_display.len(), 0);
}

#[test]
fn marquee_full_cycle_restores_the_original_text() {
    // 24 characters, 10 columns, a rotation every pass: after 24 render
    // passes the displayed text is the original again.
    let original = "This is a very long line";
    assert_eq!(original.chars().count(), 24);
    let mut list = StatefulSelectedList::new(string_items(&[original]));
    for _ in 0..24 {
        list.calc_on_display(12, 3, 1);
    }
    assert_eq!(list.on_display[0], original);
}

#[test]
fn marquee_rotates_one_character_per_firing_pass() {
    let mut list = StatefulSelectedList::new(string_items(&["abcdef"]));
    list.calc_on_display(6, 3, 1);
    assert_eq!(list.on_display[0], "bcdefa");
    list.calc_on_display(6, 3, 1);
    assert_eq!(list.on_display[0], "cdefab");
}

#[test]
fn marquee_respects_the_tick_delay() {
    let mut list = StatefulSelectedList::new(string_items(&["abcdef"]));
    // Delay three: the first two passes only count, the third rotates.
    list.calc_on_display(6, 3, 3);
    assert_eq!(list.on_display[0], "abcdef");
    list.calc_on_display(6, 3, 3);
    assert_eq!(list.on_display[0], "abcdef");
    list.calc_on_display(6, 3, 3);
    assert_eq!(list.on_display[0], "bcdefa");
}

#[test]
fn item_that_fits_again_shows_unrotated() {
    let mut list = StatefulSelectedList::new(string_items(&["abcdef"]));
    list.calc_on_display(6, 3, 1);
    assert_eq!(list.on_display[0], "bcdefa");
    // Wide enough now: the row returns to the source text and the phase
    // resets.
    list.calc_on_display(20, 3, 1);
    assert_eq!(list.on_display[0], "abcdef");
    // Narrow again: the rotation starts over from the beginning.
    list.calc_on_display(6, 3, 1);
    assert_eq!(list.on_display[0], "bcdefa");
}

#[test]
fn short_items_never_scroll() {
    let mut list = StatefulSelectedList::new(string_items(&["ab"]));
    list.calc_on_display(3, 3, 1);
    assert_eq!(list.on_display[0], "ab");
}

#[test]
fn invisible_rows_keep_their_phase() {
    // Two rows, one visible. The first row rotates, then scrolling away
    // and back recovers its rotation from the persistent phase.
    let mut list = StatefulSelectedList::new(string_items(&["abcdef", "xy"]));
    list.calc_on_display(6, 3, 1);
    assert_eq!(list.on_display[0], "bcdefa");
    list.next();
    // Large delay: this pass and the next do not rotate further.
    list.calc_on_display(6, 3, 99);
    assert_eq!(list.on_display, string_items(&["xy"]));
    list.previous();
    list.calc_on_display(6, 3, 99);
    assert_eq!(list.on_display, string_items(&["bcdefa"]));
}

#[test]
fn change_elements_resets_selection_offset_and_phases() {
    let mut list = StatefulSelectedList::new(string_items(&["abcdef", "B", "C"]));
    list.next();
    list.next();
    list.calc_on_display(6, 3, 1);
    assert_eq!(list.all_elements.state.offset, 2);

    list.change_elements(cmp_tui::stateful_list::StatefulList::with_items(string_items(&[
        "longer than before",
        "second",
    ])));
    assert_eq!(list.get_selected_index(), 0);
    assert_eq!(list.all_elements.state.offset, 0);
    // No pending phase: with a large delay the new first row shows as is.
    list.calc_on_display(6, 3, 99);
    assert_eq!(list.on_display[0], "longer than before");
}

#[test]
fn multibyte_text_rotates_by_characters() {
    let mut list = StatefulSelectedList::new(string_items(&["\u{e4}bc\u{f6}"]));
    list.calc_on_display(5, 3, 1);
    assert_eq!(list.on_display[0], "bc\u{f6}\u{e4}");
    list.calc_on_display(5, 3, 1);
    assert_eq!(list.on_display[0], "c\u{f6}\u{e4}b");
}

#[test]
fn boundary_predicates_report_the_edges() {
    let mut list = StatefulSelectedList::new(string_items(&["a", "b", "c"]));
    assert!(list.is_first_element_selected());
    assert!(!list.is_last_element_selected());
    list.next();
    assert!(!list.is_first_element_selected());
    list.next();
    assert!(list.is_last_element_selected());
}
