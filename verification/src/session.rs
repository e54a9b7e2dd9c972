//! The playback session: what is known about the chosen playlist, the
//! decision of what the confirmation key does in each focus region, and
//! the per-frame refresh of the now-playing panels. Everything that
//! talks to the playback server stays outside this crate; these
//! functions take the fetched values as arguments and hand back the
//! commands to issue.

use vstd::prelude::*;
use crate::app::{shadow_updated, App};
use crate::stateful_list::StatefulList;
use crate::stateful_selected_list::{freshly_reset, CurrentElement};
use crate::text::{dec_digits, decimal_string};

verus! {

/// What this crate reads of one catalogue entry: the tagged metadata as
/// plain values. The remote service's own record type is converted to
/// this one at the boundary.
pub struct SongInfo {
    pub title: Option<String>,
    pub artist: Option<String>,
    pub album_artist: Option<String>,
    pub album: Option<String>,
    pub duration_seconds: Option<i64>,
}

pub open spec fn spec_title_of(s: SongInfo) -> Seq<char> {
    match s.title {
        Some(t) => t@,
        None => "unknown title"@,
    }
}

pub open spec fn spec_artist_of(s: SongInfo) -> Seq<char> {
    match s.artist {
        Some(a) => a@,
        None => match s.album_artist {
            Some(a) => a@,
            None => "unknwon artist"@,
        },
    }
}

pub open spec fn spec_album_of(s: SongInfo) -> Seq<char> {
    match s.album {
        Some(a) => a@,
        None => "unknown album"@,
    }
}

/// The duration a song reports, as the value the getter returns.
pub open spec fn get_duration_spec(s: SongInfo) -> i64 {
    match s.duration_seconds {
        Some(d) => d,
        None => 0,
    }
}

pub open spec fn spec_duration_of(s: SongInfo) -> int {
    get_duration_spec(s) as int
}

/// The title of a song, with a fixed fallback for untagged entries.
pub fn get_title_from_song(song: &SongInfo) -> (r: String)
    ensures
        r@ == spec_title_of(*song),
{
    match &song.title {
        Some(t) => t.clone(),
        None => "unknown title".to_owned(),
    }
}

/// The artist of a song: the artist tag, else the album artist tag,
/// else a fixed fallback.
pub fn get_artist_from_song(song: &SongInfo) -> (r: String)
    ensures
        r@ == spec_artist_of(*song),
{
    match &song.artist {
        Some(a) => a.clone(),
        None => match &song.album_artist {
            Some(a) => a.clone(),
            None => "unknwon artist".to_owned(),
        },
    }
}

/// The album of a song, with a fixed fallback for untagged entries.
pub fn get_album_from_song(song: &SongInfo) -> (r: String)
    ensures
        r@ == spec_album_of(*song),
{
    match &song.album {
        Some(a) => a.clone(),
        None => "unknown album".to_owned(),
    }
}

/// The duration of a song in seconds, zero when untagged.
pub fn get_duration_from_song(song: &SongInfo) -> (r: i64)
    ensures
        r == spec_duration_of(*song),
{
    match song.duration_seconds {
        None => 0,
        Some(x) => x,
    }
}

/// `m:ss`: whole minutes, a colon, and the seconds padded to two digits.
pub open spec fn spec_time_string(seconds: int) -> Seq<char>
    recommends
        seconds >= 0,
{
    dec_digits((seconds / 60) as nat) + (if seconds % 60 < 10 {
        ":0"@
    } else {
        ":"@
    }) + dec_digits((seconds % 60) as nat)
}

/// One transport command for the playback server.
pub enum TransportCommand {
    PrevSong,
    TogglePlayPause,
    NextSong,
}

/// What the confirmation key asks the caller to do: fetch a playlist's
/// songs, load a range of the chosen playlist and start playback, issue
/// a transport command, or nothing.
pub enum UserAction {
    FetchPlaylist(String),
    LoadAndPlay { start: u32, end: u32 },
    Transport(TransportCommand),
    NoAction,
}

/// Session state around the playback server: the chosen playlist, its
/// tracks as last fetched, and the queue offset of the track that
/// playback started from.
pub struct PlayerSession {
    pub playlist_name: String,
    pub playlist_length: u32,
    pub track_list: Vec<String>,
    pub songs_list: Vec<SongInfo>,
    pub offset: usize,
}

impl PlayerSession {
    /// One display title per fetched song, and a length that counts them.
    pub open spec fn wf(&self) -> bool {
        &&& self.track_list.len() == self.songs_list.len()
        &&& self.playlist_length == self.songs_list.len()
    }

    pub fn new() -> (r: PlayerSession)
        ensures
            r.wf(),
            r.playlist_name@ == Seq::<char>::empty(),
            r.playlist_length == 0,
            r.track_list@ == Seq::<String>::empty(),
            r.songs_list@ == Seq::<SongInfo>::empty(),
            r.offset == 0,
    {
        PlayerSession {
            playlist_name: String::new(),
            playlist_length: 0,
            track_list: Vec::new(),
            songs_list: Vec::new(),
            offset: 0,
        }
    }

    /// Shows the playlist names fetched from the server in the playlist
    /// panel. To be called once at startup.
    pub fn initialize(&self, app: &mut App, playlist_names: Vec<String>)
        requires
            old(app).wf(),
        ensures
            final(app).wf(),
            *final(app) == (App { playlist_list: final(app).playlist_list, ..*old(app) }),
            final(app).playlist_list.all_elements.items == playlist_names,
            freshly_reset(final(app).playlist_list),
    {
        let playlist_stateful_list = StatefulList::with_items(playlist_names);
        app.playlist_list.change_elements(playlist_stateful_list);
    }

    /// Decides what the confirmation key does in the current focus
    /// region, recording the chosen playlist name or queue offset. The
    /// caller performs the returned action against the server.
    pub fn user_action_request(&mut self, app: &App) -> (a: UserAction)
        requires
            old(self).wf(),
            app.wf(),
            app.tracks_list.num_items() <= u32::MAX,
        ensures
            final(self).wf(),
            final(self).track_list == old(self).track_list,
            final(self).songs_list == old(self).songs_list,
            final(self).playlist_length == old(self).playlist_length,
            app.current_element == CurrentElement::Playlists ==> ({
                if app.playlist_list.selected_element_index_in_on_display
                    < app.playlist_list.on_display.len() {
                    &&& final(self).playlist_name == app.playlist_list.on_display@[app.playlist_list.selected_element_index_in_on_display as int]
                    &&& final(self).offset == old(self).offset
                    &&& a == UserAction::FetchPlaylist(final(self).playlist_name)
                } else {
                    *final(self) == *old(self) && a == UserAction::NoAction
                }
            }),
            app.current_element == CurrentElement::MainArea ==> ({
                &&& final(self).offset == app.tracks_list.sel()
                &&& final(self).playlist_name == old(self).playlist_name
                &&& a == (UserAction::LoadAndPlay {
                    start: app.tracks_list.sel() as u32,
                    end: old(self).playlist_length,
                })
            }),
            app.current_element == CurrentElement::Playbar ==> *final(self) == *old(self) && a == (
            match app.playbar_state.index {
                0usize => UserAction::Transport(TransportCommand::PrevSong),
                1usize => UserAction::Transport(TransportCommand::TogglePlayPause),
                2usize => UserAction::Transport(TransportCommand::NextSong),
                _ => UserAction::NoAction,
            }),
            app.current_element != CurrentElement::Playlists && app.current_element
                != CurrentElement::MainArea && app.current_element != CurrentElement::Playbar
                ==> *final(self) == *old(self) && a == UserAction::NoAction,
    {
        let current_block = &app.current_element;

        if current_block.eq(&CurrentElement::Playlists) {
            if app.playlist_list.has_visible_selection() {
                self.playlist_name = app.playlist_list.get_selected_element().clone();
                return UserAction::FetchPlaylist(self.playlist_name.clone());
            }
            return UserAction::NoAction;
        }

        if current_block.eq(&CurrentElement::MainArea) {
            let selected_index = app.tracks_list.get_selected_index();
            self.offset = selected_index;
            return UserAction::LoadAndPlay {
                start: selected_index as u32,
                end: self.playlist_length,
            };
        }

        if current_block.eq(&CurrentElement::Playbar) {
            match app.playbar_state.index {
                0 => {
                    return UserAction::Transport(TransportCommand::PrevSong);
                },
                1 => {
                    return UserAction::Transport(TransportCommand::TogglePlayPause);
                },
                2 => {
                    return UserAction::Transport(TransportCommand::NextSong);
                },
                _ => {
                    return UserAction::NoAction;
                },
            }
        }

        UserAction::NoAction
    }

    /// Installs the songs fetched for the chosen playlist: remembers
    /// them, derives the four synchronized columns (title, artist,
    /// album, formatted length) and shows them in the main area.
    pub fn apply_playlist_songs(&mut self, app: &mut App, songs: Vec<SongInfo>)
        requires
            old(self).wf(),
            old(app).wf(),
            songs.len() <= u32::MAX,
            forall|i: int| 0 <= i < songs.len() ==> spec_duration_of(#[trigger] songs@[i]) >= 0,
        ensures
            final(self).wf(),
            final(app).wf(),
            final(self).playlist_name == old(self).playlist_name,
            final(self).offset == old(self).offset,
            final(self).songs_list == songs,
            final(self).playlist_length == songs.len(),
            forall|i: int| 0 <= i < songs.len() ==> (#[trigger] final(self).track_list@[i])@
                == spec_title_of(songs@[i]),
            *final(app) == (App {
                tracks_list: final(app).tracks_list,
                artist_list: final(app).artist_list,
                albums_list: final(app).albums_list,
                lengths_list: final(app).lengths_list,
                ..*old(app)
            }),
            final(app).tracks_list.num_items() == songs.len(),
            final(app).artist_list.num_items() == songs.len(),
            final(app).albums_list.num_items() == songs.len(),
            final(app).lengths_list.num_items() == songs.len(),
            freshly_reset(final(app).tracks_list),
            freshly_reset(final(app).artist_list),
            freshly_reset(final(app).albums_list),
            freshly_reset(final(app).lengths_list),
            forall|i: int| 0 <= i < songs.len() ==> #[trigger] final(app).tracks_list.item_at(i)
                == spec_title_of(songs@[i]),
            forall|i: int| 0 <= i < songs.len() ==> #[trigger] final(app).artist_list.item_at(i)
                == spec_artist_of(songs@[i]),
            forall|i: int| 0 <= i < songs.len() ==> #[trigger] final(app).albums_list.item_at(i)
                == spec_album_of(songs@[i]),
            forall|i: int| 0 <= i < songs.len() ==> #[trigger] final(app).lengths_list.item_at(i)
                == spec_time_string(spec_duration_of(songs@[i])),
    {
        let playlist_length = songs.len();

        let mut track_vec: Vec<String> = Vec::with_capacity(playlist_length);
        let mut albums_vec: Vec<String> = Vec::with_capacity(playlist_length);
        let mut artists_vec: Vec<String> = Vec::with_capacity(playlist_length);
        let mut duration_vec: Vec<String> = Vec::with_capacity(playlist_length);

        let mut i: usize = 0;
        while i < playlist_length
            invariant
                i <= playlist_length,
                playlist_length == songs.len(),
                track_vec.len() == i,
                albums_vec.len() == i,
                artists_vec.len() == i,
                duration_vec.len() == i,
                forall|j: int| 0 <= j < songs.len() ==> spec_duration_of(#[trigger] songs@[j])
                    >= 0,
                forall|j: int| 0 <= j < i ==> (#[trigger] track_vec@[j])@ == spec_title_of(
                    songs@[j],
                ),
                forall|j: int| 0 <= j < i ==> (#[trigger] albums_vec@[j])@ == spec_album_of(
                    songs@[j],
                ),
                forall|j: int| 0 <= j < i ==> (#[trigger] artists_vec@[j])@ == spec_artist_of(
                    songs@[j],
                ),
                forall|j: int| 0 <= j < i ==> (#[trigger] duration_vec@[j])@ == spec_time_string(
                    spec_duration_of(songs@[j]),
                ),
            decreases playlist_length - i,
        {
            track_vec.push(get_title_from_song(&songs[i]));
            albums_vec.push(get_album_from_song(&songs[i]));
            artists_vec.push(get_artist_from_song(&songs[i]));
            duration_vec.push(
                PlayerSession::transform_to_time_string(get_duration_from_song(&songs[i])),
            );
            i += 1;
        }

        self.track_list = track_vec.clone();
        self.songs_list = songs;
        self.playlist_length = playlist_length as u32;

        let track_stateful_list = StatefulList::with_items(track_vec);
        let albums_stateful_list = StatefulList::with_items(albums_vec);
        let artists_stateful_list = StatefulList::with_items(artists_vec);
        let durations_stateful_list = StatefulList::with_items(duration_vec);

        app.tracks_list.change_elements(track_stateful_list);
        app.albums_list.change_elements(albums_stateful_list);
        app.artist_list.change_elements(artists_stateful_list);
        app.lengths_list.change_elements(durations_stateful_list);
    }

    /// Refreshes the now-playing panels from the server's answers: the
    /// play/pause glyph, both shadow lists (each under its change
    /// guard), and the progress text. Returns the playing song's
    /// duration, for the caller's progress ratio, when something plays.
    pub fn update_meta_display(
        &self,
        app: &mut App,
        is_playing: bool,
        queue_position: u32,
        elapsed_seconds: i64,
    ) -> (r: Option<i64>)
        requires
            self.wf(),
            old(app).wf(),
            elapsed_seconds >= 0,
            is_playing ==> queue_position + self.offset < self.track_list.len(),
        ensures
            final(app).wf(),
            final(app).playbar_state.titles.len() == old(app).playbar_state.titles.len(),
            final(app).playbar_state.titles@[0] == old(app).playbar_state.titles@[0],
            final(app).playbar_state.titles@[2] == old(app).playbar_state.titles@[2],
            final(app).playbar_state.index == old(app).playbar_state.index,
            !is_playing ==> ({
                &&& final(app).playbar_state.titles@[1]@ == ">>"@
                &&& r is None
                &&& *final(app) == (App {
                    playbar_state: final(app).playbar_state,
                    ..*old(app)
                })
            }),
            is_playing ==> ({
                let pos = queue_position + self.offset;
                &&& final(app).playbar_state.titles@[1]@ == "‖‖"@
                &&& shadow_updated(
                    final(app).track_name_list,
                    old(app).track_name_list,
                    self.track_list@[pos]@,
                )
                &&& shadow_updated(
                    final(app).artist_name_list,
                    old(app).artist_name_list,
                    spec_artist_of(self.songs_list@[pos]),
                )
                &&& final(app).track_progress_text@ == spec_time_string(elapsed_seconds as int)
                &&& r == Some(get_duration_spec(self.songs_list@[pos]))
                &&& *final(app) == (App {
                    playbar_state: final(app).playbar_state,
                    track_name_list: final(app).track_name_list,
                    artist_name_list: final(app).artist_name_list,
                    track_progress_text: final(app).track_progress_text,
                    ..*old(app)
                })
            }),
    {
        if is_playing {
            app.playbar_state.titles[1] = "‖‖";

            let index = queue_position as usize;
            let pos = index + self.offset;

            let track = self.track_list[pos].clone();
            let artist = get_artist_from_song(&self.songs_list[pos]);
            app.set_now_playing(track, artist);

            app.track_progress_text = PlayerSession::transform_to_time_string(elapsed_seconds);
            Some(get_duration_from_song(&self.songs_list[pos]))
        } else {
            app.playbar_state.titles[1] = ">>";
            None
        }
    }

    /// Renders a second count as `m:ss`.
    pub fn transform_to_time_string(seconds_input: i64) -> (r: String)
        requires
            seconds_input >= 0,
        ensures
            r@ == spec_time_string(seconds_input as int),
    {
        let mut seconds = seconds_input;
        let mut minutes: i64 = 0;

        while seconds >= 60
            invariant
                0 <= seconds,
                0 <= minutes,
                minutes * 60 + seconds == seconds_input,
            decreases seconds,
        {
            minutes += 1;
            seconds -= 60;
        }

        proof {
            vstd::arithmetic::div_mod::lemma_fundamental_div_mod_converse(
                seconds_input as int,
                60,
                minutes as int,
                seconds as int,
            );
        }

        let mut time_string = decimal_string(minutes as u64);
        if seconds < 10 {
            time_string.append(":0");
        } else {
            time_string.append(":");
        }
        let seconds_string = decimal_string(seconds as u64);
        time_string.append(seconds_string.as_str());
        proof {
            assert(time_string@ =~= spec_time_string(seconds_input as int));
        }
        time_string
    }
}

} // verus!
