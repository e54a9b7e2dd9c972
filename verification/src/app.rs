//! The application state: the panel registry (one scrollable list per
//! panel plus the now-playing shadow lists), the focus bookkeeping, and
//! the validated command line parameters.

use vstd::prelude::*;
use crate::stateful_list::{StatefulList, TabsState};
use crate::stateful_selected_list::{
    freshly_reset, sel_advanced, sel_retreated, CurrentElement, StatefulSelectedList,
};
use crate::text::{trim_of, trimmed};

verus! {

/// Command line parameters, as plain strings and numbers; reading them
/// from the process environment happens outside this crate.
pub struct CmdArgs {
    /// Address of the playback server, without the port.
    pub ip: String,
    /// Port of the playback server.
    pub port: String,
    /// Milliseconds between two ticks of the render timer.
    pub tick_rate: u64,
}

/// One event of the merged input stream: a captured key press, or one
/// tick of the render timer.
pub enum Event<I> {
    Input(I),
    Tick,
}

/// One interpreted key press, as the input layer reports it.
#[derive(Clone, Copy)]
pub enum KeyInput {
    Quit,
    Left,
    Up,
    Right,
    Down,
    Confirm,
    Other,
}

pub open spec fn is_dec_digit(c: char) -> bool {
    '0' <= c && c <= '9'
}

pub open spec fn digit_value(c: char) -> nat {
    ((c as int) - ('0' as int)) as nat
}

/// The number a string of decimal digits denotes.
pub open spec fn dec_value(s: Seq<char>) -> nat
    decreases s.len(),
{
    if s.len() == 0 {
        0
    } else {
        dec_value(s.drop_last()) * 10 + digit_value(s.last())
    }
}

/// A longer digit string never denotes a smaller number.
proof fn lemma_dec_value_prefix(s: Seq<char>, i: int)
    requires
        0 <= i <= s.len(),
    ensures
        dec_value(s) >= dec_value(s.subrange(0, i)),
    decreases s.len() - i,
{
    if i == s.len() {
        assert(s.subrange(0, i) =~= s);
    } else {
        lemma_dec_value_prefix(s, i + 1);
        assert(s.subrange(0, i + 1).drop_last() =~= s.subrange(0, i));
        assert(dec_value(s.subrange(0, i + 1)) == dec_value(s.subrange(0, i)) * 10 + digit_value(
            s.subrange(0, i + 1).last(),
        ));
    }
}

/// Reads a port number: the string must be non-empty, all decimal
/// digits, and denote a value that fits in sixteen bits.
pub fn parse_port(s: &str) -> (r: Option<u16>)
    ensures
        r is Some <==> (s@.len() > 0 && (forall|i: int| 0 <= i < s@.len() ==> is_dec_digit(s@[i]))
            && dec_value(s@) <= 0xFFFF),
        r matches Some(p) ==> p as nat == dec_value(s@),
{
    let n = s.unicode_len();
    if n == 0 {
        return None;
    }
    let mut value: u32 = 0;
    let mut i: usize = 0;
    while i < n
        invariant
            n == s@.len(),
            0 < n,
            i <= n,
            forall|j: int| 0 <= j < i ==> is_dec_digit(s@[j]),
            value as nat == dec_value(s@.subrange(0, i as int)),
            value <= 0xFFFF,
        decreases n - i,
    {
        let c = s.get_char(i);
        let cv = c as u32;
        if cv < 48 || cv > 57 {
            return None;
        }
        let d = cv - 48;
        proof {
            assert(is_dec_digit(s@[i as int]));
            assert(d as nat == digit_value(s@[i as int]));
            assert(s@.subrange(0, i + 1).drop_last() =~= s@.subrange(0, i as int));
        }
        if value > 6553 || (value == 6553 && d > 5) {
            proof {
                assert(dec_value(s@.subrange(0, i + 1)) > 0xFFFF);
                lemma_dec_value_prefix(s@, i + 1);
            }
            return None;
        }
        value = value * 10 + d;
        i += 1;
    }
    proof {
        assert(s@.subrange(0, n as int) =~= s@);
    }
    Some(value as u16)
}

/// The first item of a now-playing shadow list, with a single space
/// standing in when the list is empty.
pub open spec fn shadow_current(l: StatefulSelectedList) -> Seq<char> {
    if l.num_items() > 0 {
        l.item_at(0)
    } else {
        seq![' ']
    }
}

/// The outcome of mirroring `new_name` into a shadow list: unchanged
/// when the trimmed name already shows, else replaced by a fresh
/// one-item list holding `new_name` with its marquee at phase zero.
pub open spec fn shadow_updated(
    post: StatefulSelectedList,
    pre: StatefulSelectedList,
    new_name: Seq<char>,
) -> bool {
    if trim_of(new_name) == trim_of(shadow_current(pre)) {
        post == pre
    } else {
        &&& post.wf()
        &&& post.num_items() == 1
        &&& post.item_at(0) == new_name
        &&& post.sel() == 0
        &&& post.phase_at(0) == 0
        &&& post.horizontal_tick_counter == 0
    }
}

/// All mutable state of the dashboard: the panel registry and the focus
/// bookkeeping. Pure presentation state (colors, the progress ratio)
/// lives with the renderer outside this crate.
pub struct App<'a> {
    /// Render passes between two marquee advances.
    pub horizontal_scroll_delay: u16,
    pub view_list: StatefulSelectedList,
    pub playlist_list: StatefulSelectedList,
    pub tracks_list: StatefulSelectedList,
    pub artist_list: StatefulSelectedList,
    pub albums_list: StatefulSelectedList,
    pub lengths_list: StatefulSelectedList,
    /// Shadow list mirroring the playing track's name.
    pub track_name_list: StatefulSelectedList,
    /// Shadow list mirroring the playing track's artist.
    pub artist_name_list: StatefulSelectedList,
    /// Text shown inside the progress bar.
    pub track_progress_text: String,
    /// The panel that currently owns directional input.
    pub current_element: CurrentElement,
    /// The playbar tab cursor; its index equals the tab count while no
    /// tab is highlighted.
    pub playbar_state: TabsState<'a>,
    pub should_quit: bool,
    pub up: bool,
    pub down: bool,
    pub left: bool,
    pub right: bool,
}

impl<'a> App<'a> {
    /// The four center lists scroll in lock step: same length, same
    /// selection.
    pub open spec fn main_area_synced(&self) -> bool {
        &&& self.tracks_list.num_items() == self.artist_list.num_items()
        &&& self.tracks_list.num_items() == self.albums_list.num_items()
        &&& self.tracks_list.num_items() == self.lengths_list.num_items()
        &&& self.tracks_list.sel() == self.artist_list.sel()
        &&& self.tracks_list.sel() == self.albums_list.sel()
        &&& self.tracks_list.sel() == self.lengths_list.sel()
    }

    /// Every list is well formed, the playbar has its three transport
    /// tabs with the cursor at most on the "no tab" sentinel, a real tab
    /// is current whenever the playbar has focus, and the synchronized
    /// group is in lock step.
    pub open spec fn wf(&self) -> bool {
        &&& self.view_list.wf()
        &&& self.playlist_list.wf()
        &&& self.tracks_list.wf()
        &&& self.artist_list.wf()
        &&& self.albums_list.wf()
        &&& self.lengths_list.wf()
        &&& self.track_name_list.wf()
        &&& self.artist_name_list.wf()
        &&& self.playbar_state.titles.len() == 3
        &&& self.playbar_state.index <= 3
        &&& (self.current_element == CurrentElement::Playbar ==> self.playbar_state.index < 3)
        &&& self.main_area_synced()
    }

    pub fn new() -> (r: App<'a>)
        ensures
            r.wf(),
            r.current_element == CurrentElement::Playlists,
            r.playbar_state.index == 3,
            r.should_quit == false,
            !r.up && !r.down && !r.left && !r.right,
            r.horizontal_scroll_delay == 1,
            r.view_list.num_items() == 1,
            r.playlist_list.num_items() == 1,
            r.tracks_list.num_items() == 1,
            r.playlist_list.sel() == 0,
            r.tracks_list.sel() == 0,
            r.view_list.sel() == 0,
            r.playbar_state.titles.len() == 3,
            r.playbar_state.titles@[0]@ == "|<<"@,
            r.playbar_state.titles@[1]@ == ">>"@,
            r.playbar_state.titles@[2]@ == ">>|"@,
            r.track_name_list.num_items() == 1,
            r.track_name_list.item_at(0) == seq![' '],
            r.track_name_list.sel() == 0,
            r.track_name_list.phase_at(0) == 0,
            r.artist_name_list.num_items() == 1,
            r.artist_name_list.item_at(0) == seq![' '],
            r.artist_name_list.sel() == 0,
            r.artist_name_list.phase_at(0) == 0,
    {
        let mut view_items: Vec<String> = Vec::new();
        view_items.push("CMP is made by K.Radke, L.Seyboldt & S.Stahl (c) 2020  ".to_owned());

        let mut titles: Vec<&'a str> = Vec::new();
        titles.push("|<<");
        titles.push(">>");
        titles.push(">>|");

        let mut app = App {
            horizontal_scroll_delay: 1,
            view_list: StatefulSelectedList::new(view_items),
            playlist_list: StatefulSelectedList::new(single_space()),
            tracks_list: StatefulSelectedList::new(single_space()),
            artist_list: StatefulSelectedList::new(single_space()),
            albums_list: StatefulSelectedList::new(single_space()),
            lengths_list: StatefulSelectedList::new(single_space()),
            track_name_list: StatefulSelectedList::new(single_space()),
            artist_name_list: StatefulSelectedList::new(single_space()),
            track_progress_text: "00 : 00".to_owned(),
            current_element: CurrentElement::Playlists,
            playbar_state: TabsState::new(titles),
            should_quit: false,
            up: false,
            down: false,
            left: false,
            right: false,
        };

        // The sentinel one past the last tab: nothing is visibly selected.
        app.playbar_state.index = 3;

        app
    }

    /// Applies one key press to the input state: an arrow key leaves its
    /// pending flag, the quit key raises the quit flag. Returns whether
    /// the confirmation key was pressed, so the caller can start the
    /// requested action.
    pub fn handle_key_input(&mut self, key: KeyInput) -> (confirm: bool)
        ensures
            confirm == (key is Confirm),
            final(self).should_quit == (old(self).should_quit || key is Quit),
            final(self).up == (old(self).up || key is Up),
            final(self).down == (old(self).down || key is Down),
            final(self).left == (old(self).left || key is Left),
            final(self).right == (old(self).right || key is Right),
            *final(self) == (App {
                should_quit: final(self).should_quit,
                up: final(self).up,
                down: final(self).down,
                left: final(self).left,
                right: final(self).right,
                ..*old(self)
            }),
            old(self).wf() ==> final(self).wf(),
    {
        match key {
            KeyInput::Quit => {
                self.should_quit = true;
                false
            },
            KeyInput::Left => {
                self.left = true;
                false
            },
            KeyInput::Up => {
                self.up = true;
                false
            },
            KeyInput::Right => {
                self.right = true;
                false
            },
            KeyInput::Down => {
                self.down = true;
                false
            },
            KeyInput::Confirm => true,
            KeyInput::Other => false,
        }
    }

    /// Reads and clears the pending "up" input.
    pub fn poll_up(&mut self) -> (r: bool)
        ensures
            r == old(self).up,
            final(self).up == false,
            *final(self) == (App { up: false, ..*old(self) }),
    {
        if self.up {
            self.up = false;
            return true;
        }
        false
    }

    /// Reads and clears the pending "down" input.
    pub fn poll_down(&mut self) -> (r: bool)
        ensures
            r == old(self).down,
            final(self).down == false,
            *final(self) == (App { down: false, ..*old(self) }),
    {
        if self.down {
            self.down = false;
            return true;
        }
        false
    }

    /// Reads and clears the pending "left" input.
    pub fn poll_left(&mut self) -> (r: bool)
        ensures
            r == old(self).left,
            final(self).left == false,
            *final(self) == (App { left: false, ..*old(self) }),
    {
        if self.left {
            self.left = false;
            return true;
        }
        false
    }

    /// Reads and clears the pending "right" input.
    pub fn poll_right(&mut self) -> (r: bool)
        ensures
            r == old(self).right,
            final(self).right == false,
            *final(self) == (App { right: false, ..*old(self) }),
    {
        if self.right {
            self.right = false;
            return true;
        }
        false
    }

    /// Mirrors the playing track's name into its shadow list, but only
    /// when the name (compared after trimming) really changed: an
    /// unchanged name must not restart the marquee animation.
    pub fn set_track_name(&mut self, new_track_name: String)
        requires
            old(self).wf(),
        ensures
            final(self).wf(),
            *final(self) == (App { track_name_list: final(self).track_name_list, ..*old(self) }),
            trim_of(new_track_name@) == trim_of(shadow_current(old(self).track_name_list)) ==> final(self).track_name_list == old(self).track_name_list,
            shadow_updated(final(self).track_name_list, old(self).track_name_list, new_track_name@),
            trim_of(new_track_name@) != trim_of(shadow_current(old(self).track_name_list)) ==> ({
                &&& final(self).track_name_list.wf()
                &&& final(self).track_name_list.num_items() == 1
                &&& final(self).track_name_list.item_at(0) == new_track_name@
                &&& final(self).track_name_list.sel() == 0
                &&& final(self).track_name_list.phase_at(0) == 0
                &&& final(self).track_name_list.horizontal_tick_counter == 0
            }),
    {
        let current_track_name: String = if self.track_name_list.get_elements().items.len() > 0 {
            self.track_name_list.get_elements().items[0].clone()
        } else {
            " ".to_owned()
        };
        proof {
            reveal_strlit(" ");
            assert(current_track_name@ == shadow_current(self.track_name_list));
        }

        let new_trimmed = trimmed(new_track_name.as_str());
        let current_trimmed = trimmed(current_track_name.as_str());
        if !(new_trimmed == current_trimmed) {
            let mut items: Vec<String> = Vec::new();
            items.push(new_track_name);
            self.track_name_list.change_elements(StatefulList::with_items(items));
        }
    }

    /// Mirrors the playing track's artist into its shadow list, under
    /// the same guard as the track name.
    pub fn set_artist_name(&mut self, new_artist_name: String)
        requires
            old(self).wf(),
        ensures
            final(self).wf(),
            *final(self) == (App { artist_name_list: final(self).artist_name_list, ..*old(self) }),
            trim_of(new_artist_name@) == trim_of(shadow_current(old(self).artist_name_list))
                ==> final(self).artist_name_list == old(self).artist_name_list,
            shadow_updated(final(self).artist_name_list, old(self).artist_name_list, new_artist_name@),
            trim_of(new_artist_name@) != trim_of(shadow_current(old(self).artist_name_list)) ==> ({
                &&& final(self).artist_name_list.wf()
                &&& final(self).artist_name_list.num_items() == 1
                &&& final(self).artist_name_list.item_at(0) == new_artist_name@
                &&& final(self).artist_name_list.sel() == 0
                &&& final(self).artist_name_list.phase_at(0) == 0
                &&& final(self).artist_name_list.horizontal_tick_counter == 0
            }),
    {
        let current_artist_name: String = if self.artist_name_list.get_elements().items.len() > 0 {
            self.artist_name_list.get_elements().items[0].clone()
        } else {
            " ".to_owned()
        };
        proof {
            reveal_strlit(" ");
            assert(current_artist_name@ == shadow_current(self.artist_name_list));
        }

        let new_trimmed = trimmed(new_artist_name.as_str());
        let current_trimmed = trimmed(current_artist_name.as_str());
        if !(new_trimmed == current_trimmed) {
            let mut items: Vec<String> = Vec::new();
            items.push(new_artist_name);
            self.artist_name_list.change_elements(StatefulList::with_items(items));
        }
    }

    /// Updates both now-playing shadow lists at once, each under its
    /// change guard.
    pub fn set_now_playing(&mut self, track: String, artist: String)
        requires
            old(self).wf(),
        ensures
            final(self).wf(),
            *final(self) == (App {
                track_name_list: final(self).track_name_list,
                artist_name_list: final(self).artist_name_list,
                ..*old(self)
            }),
            shadow_updated(final(self).track_name_list, old(self).track_name_list, track@),
            shadow_updated(final(self).artist_name_list, old(self).artist_name_list, artist@),
    {
        self.set_track_name(track);
        self.set_artist_name(artist);
    }

    /// The synchronized group can move: no member is empty.
    pub open spec fn main_area_group_nonempty(&self) -> bool {
        &&& self.tracks_list.num_items() > 0
        &&& self.artist_list.num_items() > 0
        &&& self.albums_list.num_items() > 0
        &&& self.lengths_list.num_items() > 0
    }

    /// Moves every list of the synchronized group one step down, or none
    /// of them if any member is empty.
    pub fn move_group_down(&mut self)
        requires
            old(self).wf(),
        ensures
            final(self).wf(),
            *final(self) == (App {
                tracks_list: final(self).tracks_list,
                artist_list: final(self).artist_list,
                albums_list: final(self).albums_list,
                lengths_list: final(self).lengths_list,
                ..*old(self)
            }),
            !old(self).main_area_group_nonempty() ==> *final(self) == *old(self),
            old(self).main_area_group_nonempty() ==> ({
                &&& sel_advanced(final(self).tracks_list, old(self).tracks_list)
                &&& sel_advanced(final(self).artist_list, old(self).artist_list)
                &&& sel_advanced(final(self).albums_list, old(self).albums_list)
                &&& sel_advanced(final(self).lengths_list, old(self).lengths_list)
            }),
    {
        if self.tracks_list.get_elements().items.len() > 0 && self.artist_list.get_elements().items.len()
            > 0 && self.albums_list.get_elements().items.len() > 0
            && self.lengths_list.get_elements().items.len() > 0 {
            self.tracks_list.next();
            self.artist_list.next();
            self.albums_list.next();
            self.lengths_list.next();
        }
    }

    /// Moves every list of the synchronized group one step up, or none
    /// of them if any member is empty.
    pub fn move_group_up(&mut self)
        requires
            old(self).wf(),
        ensures
            final(self).wf(),
            *final(self) == (App {
                tracks_list: final(self).tracks_list,
                artist_list: final(self).artist_list,
                albums_list: final(self).albums_list,
                lengths_list: final(self).lengths_list,
                ..*old(self)
            }),
            !old(self).main_area_group_nonempty() ==> *final(self) == *old(self),
            old(self).main_area_group_nonempty() ==> ({
                &&& sel_retreated(final(self).tracks_list, old(self).tracks_list)
                &&& sel_retreated(final(self).artist_list, old(self).artist_list)
                &&& sel_retreated(final(self).albums_list, old(self).albums_list)
                &&& sel_retreated(final(self).lengths_list, old(self).lengths_list)
            }),
    {
        if self.tracks_list.get_elements().items.len() > 0 && self.artist_list.get_elements().items.len()
            > 0 && self.albums_list.get_elements().items.len() > 0
            && self.lengths_list.get_elements().items.len() > 0 {
            self.tracks_list.previous();
            self.artist_list.previous();
            self.albums_list.previous();
            self.lengths_list.previous();
        }
    }
}

/// A one-item list holding a single blank row, the placeholder content
/// of every panel before real data arrives.
fn single_space() -> (r: Vec<String>)
    ensures
        r.len() == 1,
        r@[0]@ == seq![' '],
{
    let mut v: Vec<String> = Vec::new();
    v.push(" ".to_owned());
    proof {
        reveal_strlit(" ");
        assert(" "@ =~= seq![' ']);
    }
    v
}

} // verus!
