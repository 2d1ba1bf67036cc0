//! The setlist data model: playlists, the song library, and the entries that
//! place songs and events in a playlist.

use vstd::prelude::*;
use vstd::string::StringExecFns;
use crate::text::{copy_opt_text, copy_text, is_same_text};

verus! {

/// A playlist: a named running order.
#[derive(Clone, Debug, PartialEq, Eq)]
pub struct Playlist {
    pub id: String,
    pub name: String,
    pub description: Option<String>,
    pub created_at: String,
}

/// Mathematical value of a [`Playlist`].
pub struct PlaylistValue {
    pub id: Seq<char>,
    pub name: Seq<char>,
    pub description: Option<Seq<char>>,
    pub created_at: Seq<char>,
}

impl View for Playlist {
    type V = PlaylistValue;

    open spec fn view(&self) -> PlaylistValue {
        PlaylistValue {
            id: self.id@,
            name: self.name@,
            description: self.description.deep_view(),
            created_at: self.created_at@,
        }
    }
}

impl DeepView for Playlist {
    type V = PlaylistValue;

    open spec fn deep_view(&self) -> PlaylistValue {
        self@
    }
}

impl Playlist {
    /// A fresh copy.
    pub fn copy(&self) -> (r: Playlist)
        ensures
            r@ == self@,
    {
        Playlist {
            id: copy_text(&self.id),
            name: copy_text(&self.name),
            description: copy_opt_text(&self.description),
            created_at: copy_text(&self.created_at),
        }
    }
}

/// A playlist with the number of its songs and their total duration. Events
/// count for neither.
#[derive(Clone, Debug, PartialEq, Eq)]
pub struct PlaylistWithStats {
    pub id: String,
    pub name: String,
    pub description: Option<String>,
    pub created_at: String,
    pub song_count: i64,
    pub total_duration: i64,
}

/// Mathematical value of a [`PlaylistWithStats`].
pub struct PlaylistStatsValue {
    pub id: Seq<char>,
    pub name: Seq<char>,
    pub description: Option<Seq<char>>,
    pub created_at: Seq<char>,
    pub song_count: int,
    pub total_duration: int,
}

impl View for PlaylistWithStats {
    type V = PlaylistStatsValue;

    open spec fn view(&self) -> PlaylistStatsValue {
        PlaylistStatsValue {
            id: self.id@,
            name: self.name@,
            description: self.description.deep_view(),
            created_at: self.created_at@,
            song_count: self.song_count as int,
            total_duration: self.total_duration as int,
        }
    }
}

impl DeepView for PlaylistWithStats {
    type V = PlaylistStatsValue;

    open spec fn deep_view(&self) -> PlaylistStatsValue {
        self@
    }
}

/// What is given to add a playlist.
#[derive(Clone, Debug, PartialEq, Eq)]
pub struct CreatePlaylistPayload {
    pub name: String,
    pub description: Option<String>,
}

/// The playlist that a payload describes, under the id `id`, made at `created_at`.
pub open spec fn playlist_of(
    id: Seq<char>,
    created_at: Seq<char>,
    p: CreatePlaylistPayload,
) -> PlaylistValue {
    PlaylistValue { id, name: p.name@, description: p.description.deep_view(), created_at }
}

impl Playlist {
    /// The playlist that a payload describes, under the id `id`, made at `created_at`.
    pub fn from_payload(id: String, created_at: String, p: CreatePlaylistPayload) -> (r: Playlist)
        ensures
            r@ == playlist_of(id@, created_at@, p),
    {
        Playlist { id, name: p.name, description: p.description, created_at }
    }
}

/// A song of the library.
#[derive(Clone, Debug, PartialEq, Eq)]
pub struct LibrarySong {
    pub id: String,
    pub title: String,
    pub artist: String,
    pub album: Option<String>,
    pub duration: Option<i64>,
    pub tempo: Option<i64>,
    pub style: Option<String>,
    pub notes: Option<String>,
}

/// Mathematical value of a [`LibrarySong`].
pub struct LibrarySongValue {
    pub id: Seq<char>,
    pub title: Seq<char>,
    pub artist: Seq<char>,
    pub album: Option<Seq<char>>,
    pub duration: Option<i64>,
    pub tempo: Option<i64>,
    pub style: Option<Seq<char>>,
    pub notes: Option<Seq<char>>,
}

impl View for LibrarySong {
    type V = LibrarySongValue;

    open spec fn view(&self) -> LibrarySongValue {
        LibrarySongValue {
            id: self.id@,
            title: self.title@,
            artist: self.artist@,
            album: self.album.deep_view(),
            duration: self.duration,
            tempo: self.tempo,
            style: self.style.deep_view(),
            notes: self.notes.deep_view(),
        }
    }
}

impl DeepView for LibrarySong {
    type V = LibrarySongValue;

    open spec fn deep_view(&self) -> LibrarySongValue {
        self@
    }
}

impl LibrarySong {
    /// A fresh copy.
    pub fn copy(&self) -> (r: LibrarySong)
        ensures
            r@ == self@,
    {
        LibrarySong {
            id: copy_text(&self.id),
            title: copy_text(&self.title),
            artist: copy_text(&self.artist),
            album: copy_opt_text(&self.album),
            duration: self.duration,
            tempo: self.tempo,
            style: copy_opt_text(&self.style),
            notes: copy_opt_text(&self.notes),
        }
    }
}

/// What is given to add a song to the library.
#[derive(Clone, Debug, PartialEq, Eq)]
pub struct CreateLibrarySongPayload {
    pub title: String,
    pub artist: String,
    pub album: Option<String>,
    pub duration: Option<i64>,
    pub tempo: Option<i64>,
    pub style: Option<String>,
    pub notes: Option<String>,
}

/// The library song that a payload describes, under the id `id`.
pub open spec fn library_song_of(id: Seq<char>, p: CreateLibrarySongPayload) -> LibrarySongValue {
    LibrarySongValue {
        id,
        title: p.title@,
        artist: p.artist@,
        album: p.album.deep_view(),
        duration: p.duration,
        tempo: p.tempo,
        style: p.style.deep_view(),
        notes: p.notes.deep_view(),
    }
}

impl LibrarySong {
    /// The library song that a payload describes, under the id `id`.
    pub fn from_payload(id: String, p: CreateLibrarySongPayload) -> (r: LibrarySong)
        ensures
            r@ == library_song_of(id@, p),
    {
        LibrarySong {
            id,
            title: p.title,
            artist: p.artist,
            album: p.album,
            duration: p.duration,
            tempo: p.tempo,
            style: p.style,
            notes: p.notes,
        }
    }
}

/// What an entry of a playlist is: a song of the library or an event with a
/// title of its own.
#[derive(Clone, Copy, Debug, PartialEq, Eq, Structural)]
pub enum EntryKind {
    Song,
    Event,
}

/// The stored code of an entry kind.
pub open spec fn entry_kind_code(kind: EntryKind) -> Seq<char> {
    match kind {
        EntryKind::Song => "song"@,
        EntryKind::Event => "event"@,
    }
}

/// The kind that a given code stands for: an event for `"event"`, a song for
/// every other code and for none.
pub open spec fn entry_kind_of_code(code: Option<Seq<char>>) -> EntryKind {
    if code == Some("event"@) {
        EntryKind::Event
    } else {
        EntryKind::Song
    }
}

impl EntryKind {
    /// Reads a given kind code.
    pub fn from_code(code: &Option<String>) -> (r: EntryKind)
        ensures
            r == entry_kind_of_code(code.deep_view()),
    {
        match code {
            Some(c) => {
                if is_same_text(c.as_str(), "event") {
                    EntryKind::Event
                } else {
                    EntryKind::Song
                }
            },
            None => EntryKind::Song,
        }
    }

    /// The code under which the kind is stored.
    pub fn code(&self) -> (r: String)
        ensures
            r@ == entry_kind_code(*self),
    {
        match self {
            EntryKind::Song => String::from_str("song"),
            EntryKind::Event => String::from_str("event"),
        }
    }
}

/// The place of a song or an event in a playlist.
#[derive(Clone, Debug, PartialEq, Eq)]
pub struct PlaylistEntry {
    pub id: String,
    pub playlist_id: String,
    pub song_id: Option<String>,
    pub position: i64,
    pub kind: EntryKind,
    pub title: Option<String>,
    pub setlist_name: Option<String>,
    pub join_with_next: bool,
}

/// Mathematical value of a [`PlaylistEntry`].
pub struct PlaylistEntryValue {
    pub id: Seq<char>,
    pub playlist_id: Seq<char>,
    pub song_id: Option<Seq<char>>,
    pub position: i64,
    pub kind: EntryKind,
    pub title: Option<Seq<char>>,
    pub setlist_name: Option<Seq<char>>,
    pub join_with_next: bool,
}

impl View for PlaylistEntry {
    type V = PlaylistEntryValue;

    open spec fn view(&self) -> PlaylistEntryValue {
        PlaylistEntryValue {
            id: self.id@,
            playlist_id: self.playlist_id@,
            song_id: self.song_id.deep_view(),
            position: self.position,
            kind: self.kind,
            title: self.title.deep_view(),
            setlist_name: self.setlist_name.deep_view(),
            join_with_next: self.join_with_next,
        }
    }
}

impl DeepView for PlaylistEntry {
    type V = PlaylistEntryValue;

    open spec fn deep_view(&self) -> PlaylistEntryValue {
        self@
    }
}

impl PlaylistEntry {
    /// A fresh copy.
    pub fn copy(&self) -> (r: PlaylistEntry)
        ensures
            r@ == self@,
    {
        PlaylistEntry {
            id: copy_text(&self.id),
            playlist_id: copy_text(&self.playlist_id),
            song_id: copy_opt_text(&self.song_id),
            position: self.position,
            kind: self.kind,
            title: copy_opt_text(&self.title),
            setlist_name: copy_opt_text(&self.setlist_name),
            join_with_next: self.join_with_next,
        }
    }
}

/// An entry of a playlist together with what the library says of its song.
#[derive(Clone, Debug, PartialEq, Eq)]
pub struct PlaylistSongView {
    pub id: String,
    pub playlist_id: String,
    pub song_id: Option<String>,
    pub position: i64,
    pub entry_type: Option<String>,
    pub title: String,
    pub setlist_name: Option<String>,
    pub join_with_next: bool,
    pub artist: String,
    pub album: Option<String>,
    pub duration: Option<i64>,
    pub tempo: Option<i64>,
    pub style: Option<String>,
    pub notes: Option<String>,
}

/// Mathematical value of a [`PlaylistSongView`].
pub struct SongViewValue {
    pub id: Seq<char>,
    pub playlist_id: Seq<char>,
    pub song_id: Option<Seq<char>>,
    pub position: i64,
    pub entry_type: Option<Seq<char>>,
    pub title: Seq<char>,
    pub setlist_name: Option<Seq<char>>,
    pub join_with_next: bool,
    pub artist: Seq<char>,
    pub album: Option<Seq<char>>,
    pub duration: Option<i64>,
    pub tempo: Option<i64>,
    pub style: Option<Seq<char>>,
    pub notes: Option<Seq<char>>,
}

impl View for PlaylistSongView {
    type V = SongViewValue;

    open spec fn view(&self) -> SongViewValue {
        SongViewValue {
            id: self.id@,
            playlist_id: self.playlist_id@,
            song_id: self.song_id.deep_view(),
            position: self.position,
            entry_type: self.entry_type.deep_view(),
            title: self.title@,
            setlist_name: self.setlist_name.deep_view(),
            join_with_next: self.join_with_next,
            artist: self.artist@,
            album: self.album.deep_view(),
            duration: self.duration,
            tempo: self.tempo,
            style: self.style.deep_view(),
            notes: self.notes.deep_view(),
        }
    }
}

impl DeepView for PlaylistSongView {
    type V = SongViewValue;

    open spec fn deep_view(&self) -> SongViewValue {
        self@
    }
}

/// The view of an entry whose song, if the library holds it, is `song`: title
/// and artist are the song's, else the entry's own title and no artist.
pub open spec fn song_view_of(e: PlaylistEntryValue, song: Option<LibrarySongValue>) -> SongViewValue {
    SongViewValue {
        id: e.id,
        playlist_id: e.playlist_id,
        song_id: e.song_id,
        position: e.position,
        entry_type: Some(entry_kind_code(e.kind)),
        title: match song {
            Some(s) => s.title,
            None => match e.title {
                Some(t) => t,
                None => Seq::empty(),
            },
        },
        setlist_name: e.setlist_name,
        join_with_next: e.join_with_next,
        artist: match song {
            Some(s) => s.artist,
            None => Seq::empty(),
        },
        album: match song {
            Some(s) => s.album,
            None => None,
        },
        duration: match song {
            Some(s) => s.duration,
            None => None,
        },
        tempo: match song {
            Some(s) => s.tempo,
            None => None,
        },
        style: match song {
            Some(s) => s.style,
            None => None,
        },
        notes: match song {
            Some(s) => s.notes,
            None => None,
        },
    }
}

impl PlaylistSongView {
    /// The view of an entry whose song, if the library holds it, is `song`.
    pub fn of_entry(e: &PlaylistEntry, song: Option<&LibrarySong>) -> (r: PlaylistSongView)
        ensures
            r@ == song_view_of(
                e@,
                match song {
                    Some(s) => Some(s@),
                    None => None,
                },
            ),
    {
        match song {
            Some(s) => PlaylistSongView {
                id: copy_text(&e.id),
                playlist_id: copy_text(&e.playlist_id),
                song_id: copy_opt_text(&e.song_id),
                position: e.position,
                entry_type: Some(e.kind.code()),
                title: copy_text(&s.title),
                setlist_name: copy_opt_text(&e.setlist_name),
                join_with_next: e.join_with_next,
                artist: copy_text(&s.artist),
                album: copy_opt_text(&s.album),
                duration: s.duration,
                tempo: s.tempo,
                style: copy_opt_text(&s.style),
                notes: copy_opt_text(&s.notes),
            },
            None => PlaylistSongView {
                id: copy_text(&e.id),
                playlist_id: copy_text(&e.playlist_id),
                song_id: copy_opt_text(&e.song_id),
                position: e.position,
                entry_type: Some(e.kind.code()),
                title: match &e.title {
                    Some(t) => copy_text(t),
                    None => String::new(),
                },
                setlist_name: copy_opt_text(&e.setlist_name),
                join_with_next: e.join_with_next,
                artist: String::new(),
                album: None,
                duration: None,
                tempo: None,
                style: None,
                notes: None,
            },
        }
    }
}

/// What is given to put a song of the library at the end of a playlist.
#[derive(Clone, Debug, PartialEq, Eq)]
pub struct AddToPlaylistPayload {
    pub playlist_id: String,
    pub song_id: String,
    pub setlist_name: Option<String>,
    pub join_with_next: Option<bool>,
}

/// What is given to put a new entry at the end of a playlist: an event, a song
/// of the library, or a song that is added to the library on the way.
#[derive(Clone, Debug, PartialEq, Eq)]
pub struct CreateSongPayload {
    pub playlist_id: String,
    pub song_id: Option<String>,
    pub entry_type: Option<String>,
    pub title: Option<String>,
    pub artist: Option<String>,
    pub album: Option<String>,
    pub duration: Option<i64>,
    pub tempo: Option<i64>,
    pub style: Option<String>,
    pub notes: Option<String>,
    pub setlist_name: Option<String>,
    pub join_with_next: Option<bool>,
}

/// What is given to change an entry of a playlist and, for a song, the song of
/// the library behind it.
#[derive(Clone, Debug, PartialEq, Eq)]
pub struct UpdateSongPayload {
    pub id: String,
    pub playlist_id: String,
    pub song_id: Option<String>,
    pub entry_type: Option<String>,
    pub title: Option<String>,
    pub artist: Option<String>,
    pub album: Option<String>,
    pub duration: Option<i64>,
    pub tempo: Option<i64>,
    pub style: Option<String>,
    pub notes: Option<String>,
    pub setlist_name: Option<String>,
    pub join_with_next: Option<bool>,
    pub position: i64,
}

/// What is given to put the entries of a playlist in a new order: the ids of
/// the entries, first to last.
#[derive(Clone, Debug, PartialEq, Eq)]
pub struct ReorderPayload {
    pub playlist_id: String,
    pub ids: Vec<String>,
}

} // verus!
