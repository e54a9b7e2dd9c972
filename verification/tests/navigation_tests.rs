use cmp_tui::app::App;
use cmp_tui::navigation::terminal_navigation;
use cmp_tui::stateful_list::StatefulList;
use cmp_tui::stateful_selected_list::CurrentElement;

fn string_items(items: &[&str]) -> Vec<String> {
    let mut v: Vec<String> = Vec::new();
    for s in items {
        v.push((*s).to_string());
    }
    v
}

fn app_with_tracks<'a>(items: &[&str]) -> App<'a> {
    let mut app = App::new();
    app.tracks_list.change_elements(StatefulList::with_items(string_items(items)));
    app.artist_list.change_elements(StatefulList::with_items(string_items(items)));
    app.albums_list.change_elements(StatefulList::with_items(string_items(items)));
    app.lengths_list.change_elements(StatefulList::with_items(string_items(items)));
    app
}

#[test]
fn up_from_first_playlist_moves_to_the_last_tab() {
    // Starting state Playlists with the first item selected.
    let mut app = App::new();
    assert_eq!(app.current_element, CurrentElement::Playlists);
    assert_eq!(app.playlist_list.get_selected_index(), 0);
    app.up = true;
    terminal_navigation(&mut app);
    assert_eq!(app.current_element, CurrentElement::Playbar);
    assert_eq!(app.playbar_state.index, 2);
}

#[test]
fn up_from_first_main_area_row_moves_to_the_first_tab() {
    let mut app = app_with_tracks(&["t1", "t2"]);
    app.current_element = CurrentElement::MainArea;
    assert_eq!(app.tracks_list.get_selected_index(), 0);
    app.up = true;
    terminal_navigation(&mut app);
    assert_eq!(app.current_element, CurrentElement::Playbar);
    assert_eq!(app.playbar_state.index, 0);
    // The group selection is untouched.
    assert_eq!(app.tracks_list.get_selected_index(), 0);
    assert_eq!(app.artist_list.get_selected_index(), 0);
    assert_eq!(app.albums_list.get_selected_index(), 0);
    assert_eq!(app.lengths_list.get_selected_index(), 0);
}

#[test]
fn down_in_main_area_moves_the_whole_group() {
    let mut app = app_with_tracks(&["t1", "t2", "t3"]);
    app.current_element = CurrentElement::MainArea;
    app.down = true;
    terminal_navigation(&mut app);
    assert_eq!(app.current_element, CurrentElement::MainArea);
    assert_eq!(app.tracks_list.get_selected_index(), 1);
    assert_eq!(app.artist_list.get_selected_index(), 1);
    assert_eq!(app.albums_list.get_selected_index(), 1);
    assert_eq!(app.lengths_list.get_selected_index(), 1);
}

#[test]
fn group_with_an_empty_member_does_not_move() {
    let mut app = app_with_tracks(&["t1", "t2"]);
    app.lengths_list.change_elements(StatefulList::with_items(Vec::new()));
    app.current_element = CurrentElement::MainArea;
    app.down = true;
    terminal_navigation(&mut app);
    assert_eq!(app.tracks_list.get_selected_index(), 0);
    assert_eq!(app.artist_list.get_selected_index(), 0);
}

#[test]
fn down_from_the_last_view_row_enters_playlists() {
    let mut app = App::new();
    app.current_element = CurrentElement::Views;
    // The single view row is also the last one.
    app.playlist_list.change_elements(StatefulList::with_items(string_items(&["p1", "p2"])));
    app.playlist_list.next();
    app.down = true;
    terminal_navigation(&mut app);
    assert_eq!(app.current_element, CurrentElement::Playlists);
    // Entering the playlists resets their selection.
    assert_eq!(app.playlist_list.get_selected_index(), 0);
}

#[test]
fn right_from_views_enters_the_playbar_on_the_first_tab() {
    let mut app = App::new();
    app.current_element = CurrentElement::Views;
    app.right = true;
    terminal_navigation(&mut app);
    assert_eq!(app.current_element, CurrentElement::Playbar);
    assert_eq!(app.playbar_state.index, 0);
}

#[test]
fn right_from_playlists_enters_the_main_area_and_resets_the_group() {
    let mut app = app_with_tracks(&["t1", "t2"]);
    app.tracks_list.next();
    app.artist_list.next();
    app.albums_list.next();
    app.lengths_list.next();
    app.right = true;
    terminal_navigation(&mut app);
    assert_eq!(app.current_element, CurrentElement::MainArea);
    assert_eq!(app.tracks_list.get_selected_index(), 0);
    assert_eq!(app.lengths_list.get_selected_index(), 0);
}

#[test]
fn playbar_tabs_step_left_and_right() {
    let mut app = App::new();
    app.current_element = CurrentElement::Playbar;
    app.playbar_state.index = 0;
    app.right = true;
    terminal_navigation(&mut app);
    assert_eq!(app.current_element, CurrentElement::Playbar);
    assert_eq!(app.playbar_state.index, 1);
    app.right = true;
    terminal_navigation(&mut app);
    assert_eq!(app.playbar_state.index, 2);
    app.left = true;
    terminal_navigation(&mut app);
    assert_eq!(app.playbar_state.index, 1);
}

#[test]
fn left_from_the_first_tab_returns_to_the_playlists() {
    let mut app = App::new();
    app.current_element = CurrentElement::Playbar;
    app.playbar_state.index = 0;
    app.playlist_list.change_elements(StatefulList::with_items(string_items(&["p1", "p2"])));
    app.playlist_list.next();
    app.left = true;
    terminal_navigation(&mut app);
    assert_eq!(app.current_element, CurrentElement::Playlists);
    assert_eq!(app.playlist_list.get_selected_index(), 0);
    // The tab strip goes back to its unhighlighted sentinel.
    assert_eq!(app.playbar_state.index, 3);
}

#[test]
fn right_from_the_last_tab_enters_the_timeline() {
    let mut app = App::new();
    app.current_element = CurrentElement::Playbar;
    app.playbar_state.index = 2;
    app.right = true;
    terminal_navigation(&mut app);
    assert_eq!(app.current_element, CurrentElement::Timeline);
    assert_eq!(app.playbar_state.index, 3);
}

#[test]
fn down_from_the_playbar_enters_the_main_area_with_a_reset_group() {
    let mut app = app_with_tracks(&["t1", "t2"]);
    app.tracks_list.next();
    app.artist_list.next();
    app.albums_list.next();
    app.lengths_list.next();
    app.current_element = CurrentElement::Playbar;
    app.playbar_state.index = 1;
    app.down = true;
    terminal_navigation(&mut app);
    assert_eq!(app.current_element, CurrentElement::MainArea);
    assert_eq!(app.tracks_list.get_selected_index(), 0);
    // The table keeps the tab index across this transition.
    assert_eq!(app.playbar_state.index, 1);
}

#[test]
fn timeline_left_returns_to_the_last_tab() {
    let mut app = App::new();
    app.current_element = CurrentElement::Timeline;
    app.left = true;
    terminal_navigation(&mut app);
    assert_eq!(app.current_element, CurrentElement::Playbar);
    assert_eq!(app.playbar_state.index, 2);
}

#[test]
fn timeline_down_enters_the_main_area() {
    let mut app = app_with_tracks(&["t1"]);
    app.current_element = CurrentElement::Timeline;
    app.down = true;
    terminal_navigation(&mut app);
    assert_eq!(app.current_element, CurrentElement::MainArea);
}

#[test]
fn main_area_left_returns_to_the_playlists() {
    let mut app = app_with_tracks(&["t1"]);
    app.current_element = CurrentElement::MainArea;
    app.playlist_list.change_elements(StatefulList::with_items(string_items(&["p1", "p2"])));
    app.playlist_list.next();
    app.left = true;
    terminal_navigation(&mut app);
    assert_eq!(app.current_element, CurrentElement::Playlists);
    assert_eq!(app.playlist_list.get_selected_index(), 0);
}

#[test]
fn unlisted_pairs_are_no_ops() {
    let mut app = App::new();
    app.current_element = CurrentElement::Timeline;
    app.right = true;
    terminal_navigation(&mut app);
    assert_eq!(app.current_element, CurrentElement::Timeline);
    app.up = true;
    terminal_navigation(&mut app);
    assert_eq!(app.current_element, CurrentElement::Timeline);
}

#[test]
fn navigation_consumes_the_pending_input() {
    let mut app = App::new();
    app.down = true;
    terminal_navigation(&mut app);
    assert!(!app.up && !app.down && !app.left && !app.right);
}

#[test]
fn equal_states_step_to_equal_outcomes() {
    // The transition table is a function: two identical applications
    // given the same input end in the same region with the same tab.
    let mut a = App::new();
    let mut b = App::new();
    a.up = true;
    b.up = true;
    terminal_navigation(&mut a);
    terminal_navigation(&mut b);
    assert_eq!(a.current_element, b.current_element);
    assert_eq!(a.playbar_state.index, b.playbar_state.index);
}

#[test]
fn key_presses_leave_their_pending_flags() {
    let mut app = App::new();
    assert!(!app.handle_key_input(cmp_tui::app::KeyInput::Down));
    assert!(app.down && !app.up && !app.left && !app.right);
    assert!(!app.should_quit);
    assert!(!app.handle_key_input(cmp_tui::app::KeyInput::Quit));
    assert!(app.should_quit);
    assert!(app.handle_key_input(cmp_tui::app::KeyInput::Confirm));
}
