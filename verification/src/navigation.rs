//! The focus coordinator: a finite transition table over which panel
//! owns directional input, and the routine that consumes one pending
//! directional input and applies the table to the application state.

use vstd::prelude::*;
use crate::app::App;
use crate::stateful_selected_list::{
    sel_advanced, sel_reset, sel_retreated, CurrentElement, StatefulSelectedList,
};

verus! {

/// One directional input.
pub enum NavInput {
    Up,
    Down,
    Left,
    Right,
}

/// The input layer delivers at most one directional event per tick.
pub open spec fn at_most_one_direction(app: App) -> bool {
    (if app.up {
        1int
    } else {
        0
    }) + (if app.down {
        1int
    } else {
        0
    }) + (if app.left {
        1int
    } else {
        0
    }) + (if app.right {
        1int
    } else {
        0
    }) <= 1
}

/// The single pending direction, if any.
pub open spec fn pending_input(app: App) -> Option<NavInput> {
    if app.down {
        Some(NavInput::Down)
    } else if app.up {
        Some(NavInput::Up)
    } else if app.left {
        Some(NavInput::Left)
    } else if app.right {
        Some(NavInput::Right)
    } else {
        None
    }
}

/// The last view row is selected.
pub open spec fn views_last(app: App) -> bool {
    app.view_list.num_items() > 0 && app.view_list.sel() == app.view_list.num_items() - 1
}

/// The first playlist row is selected.
pub open spec fn playlists_first(app: App) -> bool {
    app.playlist_list.sel() == 0
}

/// The first row of the synchronized group is selected.
pub open spec fn tracks_first(app: App) -> bool {
    app.tracks_list.sel() == 0
}

/// The transition table over (focus region, direction): the region and
/// playbar tab index after one directional input, given the three
/// boundary observations the table consults. Unlisted pairs keep both.
pub open spec fn nav_region_after(
    region: CurrentElement,
    tab: nat,
    input: Option<NavInput>,
    at_last_view: bool,
    at_first_playlist: bool,
    at_first_track: bool,
) -> (CurrentElement, nat) {
    match input {
        None => (region, tab),
        Some(d) => match region {
            CurrentElement::Views => match d {
                NavInput::Down => if at_last_view {
                    (CurrentElement::Playlists, tab)
                } else {
                    (CurrentElement::Views, tab)
                },
                NavInput::Right => (CurrentElement::Playbar, 0),
                _ => (CurrentElement::Views, tab),
            },
            CurrentElement::Playlists => match d {
                NavInput::Up => if at_first_playlist {
                    (CurrentElement::Playbar, 2)
                } else {
                    (CurrentElement::Playlists, tab)
                },
                NavInput::Right => (CurrentElement::MainArea, tab),
                _ => (CurrentElement::Playlists, tab),
            },
            CurrentElement::Playbar => match d {
                NavInput::Down => (CurrentElement::MainArea, tab),
                NavInput::Left => if tab == 0 {
                    (CurrentElement::Playlists, 3)
                } else {
                    (CurrentElement::Playbar, (tab - 1) as nat)
                },
                NavInput::Right => if tab == 2 {
                    (CurrentElement::Timeline, 3)
                } else {
                    (CurrentElement::Playbar, tab + 1)
                },
                _ => (CurrentElement::Playbar, tab),
            },
            CurrentElement::Timeline => match d {
                NavInput::Down => (CurrentElement::MainArea, tab),
                NavInput::Left => (CurrentElement::Playbar, 2),
                _ => (CurrentElement::Timeline, tab),
            },
            CurrentElement::MainArea => match d {
                NavInput::Up => if at_first_track {
                    (CurrentElement::Playbar, 0)
                } else {
                    (CurrentElement::MainArea, tab)
                },
                NavInput::Left => (CurrentElement::Playlists, tab),
                _ => (CurrentElement::MainArea, tab),
            },
            _ => (region, tab),
        },
    }
}

/// The (region, tab) outcome of one navigation step from `pre`.
pub open spec fn nav_outcome(pre: App) -> (CurrentElement, nat) {
    nav_region_after(
        pre.current_element,
        pre.playbar_state.index as nat,
        pending_input(pre),
        views_last(pre),
        playlists_first(pre),
        tracks_first(pre),
    )
}

/// The synchronized group is untouched.
pub open spec fn group_unchanged(pre: App, post: App) -> bool {
    &&& post.tracks_list == pre.tracks_list
    &&& post.artist_list == pre.artist_list
    &&& post.albums_list == pre.albums_list
    &&& post.lengths_list == pre.lengths_list
}

/// Every list of the synchronized group was put back on its first row.
pub open spec fn group_reset(pre: App, post: App) -> bool {
    &&& sel_reset(post.tracks_list, pre.tracks_list)
    &&& sel_reset(post.artist_list, pre.artist_list)
    &&& sel_reset(post.albums_list, pre.albums_list)
    &&& sel_reset(post.lengths_list, pre.lengths_list)
}

/// The synchronized group moved one step down, or stood still because a
/// member was empty.
pub open spec fn group_moved_down(pre: App, post: App) -> bool {
    if pre.main_area_group_nonempty() {
        &&& sel_advanced(post.tracks_list, pre.tracks_list)
        &&& sel_advanced(post.artist_list, pre.artist_list)
        &&& sel_advanced(post.albums_list, pre.albums_list)
        &&& sel_advanced(post.lengths_list, pre.lengths_list)
    } else {
        group_unchanged(pre, post)
    }
}

/// The synchronized group moved one step up, or stood still because a
/// member was empty.
pub open spec fn group_moved_up(pre: App, post: App) -> bool {
    if pre.main_area_group_nonempty() {
        &&& sel_retreated(post.tracks_list, pre.tracks_list)
        &&& sel_retreated(post.artist_list, pre.artist_list)
        &&& sel_retreated(post.albums_list, pre.albums_list)
        &&& sel_retreated(post.lengths_list, pre.lengths_list)
    } else {
        group_unchanged(pre, post)
    }
}

/// No panel list was touched.
pub open spec fn lists_unchanged(pre: App, post: App) -> bool {
    &&& post.view_list == pre.view_list
    &&& post.playlist_list == pre.playlist_list
    &&& group_unchanged(pre, post)
}

/// What one navigation step does to the panel lists, per table entry.
pub open spec fn nav_list_effects(pre: App, post: App) -> bool {
    match pending_input(pre) {
        None => lists_unchanged(pre, post),
        Some(d) => match pre.current_element {
            CurrentElement::Views => match d {
                NavInput::Down => if views_last(pre) {
                    &&& post.view_list == pre.view_list
                    &&& sel_reset(post.playlist_list, pre.playlist_list)
                    &&& group_unchanged(pre, post)
                } else {
                    &&& sel_advanced(post.view_list, pre.view_list)
                    &&& post.playlist_list == pre.playlist_list
                    &&& group_unchanged(pre, post)
                },
                NavInput::Up => {
                    &&& sel_retreated(post.view_list, pre.view_list)
                    &&& post.playlist_list == pre.playlist_list
                    &&& group_unchanged(pre, post)
                },
                _ => lists_unchanged(pre, post),
            },
            CurrentElement::Playlists => match d {
                NavInput::Down => {
                    &&& post.view_list == pre.view_list
                    &&& sel_advanced(post.playlist_list, pre.playlist_list)
                    &&& group_unchanged(pre, post)
                },
                NavInput::Up => if playlists_first(pre) {
                    lists_unchanged(pre, post)
                } else {
                    &&& post.view_list == pre.view_list
                    &&& sel_retreated(post.playlist_list, pre.playlist_list)
                    &&& group_unchanged(pre, post)
                },
                NavInput::Right => {
                    &&& post.view_list == pre.view_list
                    &&& post.playlist_list == pre.playlist_list
                    &&& group_reset(pre, post)
                },
                _ => lists_unchanged(pre, post),
            },
            CurrentElement::Playbar => match d {
                NavInput::Down => {
                    &&& post.view_list == pre.view_list
                    &&& post.playlist_list == pre.playlist_list
                    &&& group_reset(pre, post)
                },
                NavInput::Left => if pre.playbar_state.index == 0 {
                    &&& post.view_list == pre.view_list
                    &&& sel_reset(post.playlist_list, pre.playlist_list)
                    &&& group_unchanged(pre, post)
                } else {
                    lists_unchanged(pre, post)
                },
                _ => lists_unchanged(pre, post),
            },
            CurrentElement::Timeline => match d {
                NavInput::Down => {
                    &&& post.view_list == pre.view_list
                    &&& post.playlist_list == pre.playlist_list
                    &&& group_reset(pre, post)
                },
                _ => lists_unchanged(pre, post),
            },
            CurrentElement::MainArea => match d {
                NavInput::Down => {
                    &&& post.view_list == pre.view_list
                    &&& post.playlist_list == pre.playlist_list
                    &&& group_moved_down(pre, post)
                },
                NavInput::Up => if tracks_first(pre) {
                    lists_unchanged(pre, post)
                } else {
                    &&& post.view_list == pre.view_list
                    &&& post.playlist_list == pre.playlist_list
                    &&& group_moved_up(pre, post)
                },
                NavInput::Left => {
                    &&& post.view_list == pre.view_list
                    &&& sel_reset(post.playlist_list, pre.playlist_list)
                    &&& group_unchanged(pre, post)
                },
                _ => lists_unchanged(pre, post),
            },
            _ => lists_unchanged(pre, post),
        },
    }
}

/// The focus transition table is deterministic: two applications in the
/// same focus state, with the same pending input and the same boundary
/// observations, step to the same region and the same tab index.
pub proof fn lemma_focus_transition_deterministic(a: App, b: App)
    requires
        a.current_element == b.current_element,
        a.playbar_state.index == b.playbar_state.index,
        pending_input(a) == pending_input(b),
        views_last(a) == views_last(b),
        playlists_first(a) == playlists_first(b),
        tracks_first(a) == tracks_first(b),
    ensures
        nav_outcome(a) == nav_outcome(b),
{
}

/// Puts the selection of every list of the synchronized group back on
/// the first row.
pub fn reset_main_area_selection(app: &mut App)
    requires
        old(app).wf(),
    ensures
        final(app).wf(),
        *final(app) == (App {
            tracks_list: final(app).tracks_list,
            artist_list: final(app).artist_list,
            albums_list: final(app).albums_list,
            lengths_list: final(app).lengths_list,
            ..*old(app)
        }),
        group_reset(*old(app), *final(app)),
    {
        app.tracks_list.reset_selection();
        app.artist_list.reset_selection();
        app.albums_list.reset_selection();
        app.lengths_list.reset_selection();
    }

/// Consumes the pending directional input (all four input flags are
/// cleared) and applies one step of the focus transition table: the new
/// region and tab index follow `nav_outcome`, and the panel lists move
/// as `nav_list_effects` says.
pub fn terminal_navigation(app: &mut App)
    requires
        old(app).wf(),
        at_most_one_direction(*old(app)),
    ensures
        final(app).wf(),
        !final(app).up && !final(app).down && !final(app).left && !final(app).right,
        final(app).current_element == nav_outcome(*old(app)).0,
        final(app).playbar_state.index as nat == nav_outcome(*old(app)).1,
        final(app).playbar_state.titles == old(app).playbar_state.titles,
        final(app).horizontal_scroll_delay == old(app).horizontal_scroll_delay,
        final(app).track_progress_text == old(app).track_progress_text,
        final(app).should_quit == old(app).should_quit,
        final(app).track_name_list == old(app).track_name_list,
        final(app).artist_name_list == old(app).artist_name_list,
        nav_list_effects(*old(app), *final(app)),
{
    let down = app.poll_down();
    let up = app.poll_up();
    let left = app.poll_left();
    let right = app.poll_right();

    // Views
    if app.current_element == CurrentElement::Views {
        if down {
            if app.view_list.is_last_element_selected() {
                app.current_element = CurrentElement::Playlists;
                app.playlist_list.reset_selection();
                return;
            }
            app.view_list.next();
        }

        if up {
            app.view_list.previous();
        }

        if right {
            app.current_element = CurrentElement::Playbar;
            app.playbar_state.index = 0;
            return;
        }
        return;
    }

    // Playlists
    if app.current_element == CurrentElement::Playlists {
        if down {
            app.playlist_list.next();
        }

        if up {
            if app.playlist_list.is_first_element_selected() {
                app.current_element = CurrentElement::Playbar;
                app.playbar_state.index = 2;
                return;
            }
            app.playlist_list.previous();
        }

        if right {
            app.current_element = CurrentElement::MainArea;
            reset_main_area_selection(app);
            return;
        }
        return;
    }

    // Playbar
    if app.current_element == CurrentElement::Playbar {
        if left {
            if app.playbar_state.index == 0 {
                app.current_element = CurrentElement::Playlists;
                app.playlist_list.reset_selection();
                app.playbar_state.index = 3;
                return;
            }
            app.playbar_state.previous();
        }

        if right {
            if app.playbar_state.index == 2 {
                app.current_element = CurrentElement::Timeline;
                app.playbar_state.index = 3;
                return;
            }
            app.playbar_state.next();
        }

        if down {
            app.current_element = CurrentElement::MainArea;
            reset_main_area_selection(app);
            return;
        }
        return;
    }

    // Timeline
    if app.current_element == CurrentElement::Timeline {
        if left {
            app.current_element = CurrentElement::Playbar;
            app.playbar_state.index = 2;
            return;
        }

        if down {
            app.current_element = CurrentElement::MainArea;
            reset_main_area_selection(app);
            return;
        }
        return;
    }

    // Main Area
    if app.current_element == CurrentElement::MainArea {
        if down {
            app.move_group_down();
        }

        if up {
            if app.tracks_list.is_first_element_selected() {
                app.current_element = CurrentElement::Playbar;
                app.playbar_state.index = 0;
                return;
            }
            app.move_group_up();
        }

        if left {
            app.current_element = CurrentElement::Playlists;
            app.playlist_list.reset_selection();
            return;
        }
        return;
    }
}

} // verus!
