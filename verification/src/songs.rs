//! The entries of a playlist: adding songs and events, changing, removing and
//! reordering them.

use vstd::prelude::*;
use crate::ids::{fresh_id, is_hyphenated_id, none_fresh};
use crate::setlist_model::{
    entry_kind_of_code, CreateSongPayload, EntryKind, LibrarySong, LibrarySongValue,
    PlaylistEntry, PlaylistEntryValue, PlaylistSongView, ReorderPayload, UpdateSongPayload,
};
use crate::setlists::{
    entry_ids, lemma_running_order, lemma_setlist_idents, merged_at, merged_view, playlist_ids,
    playlist_order, playlist_views, renormalize_positions, renormalized, running_order, song_ids,
    songs_get_by_playlist, SetlistStore, SetlistView,
};
use crate::store::{find_id, lemma_find_id, position_of, refused, StoreError};
use crate::text::{copy_opt_text, copy_text, is_same_text};

verus! {

/// A given text, or the empty text where none is given.
pub open spec fn text_or_empty(t: Option<Seq<char>>) -> Seq<char> {
    match t {
        Some(x) => x,
        None => Seq::empty(),
    }
}

/// A copy of a given text, or the empty text where none is given.
pub fn given_or_empty(t: &Option<String>) -> (r: String)
    ensures
        r@ == text_or_empty(t.deep_view()),
{
    match t {
        Some(x) => copy_text(x),
        None => String::new(),
    }
}

/// A given flag, or `false` where none is given.
pub open spec fn flag_or_false(b: Option<bool>) -> bool {
    match b {
        Some(x) => x,
        None => false,
    }
}

/// The kind of entry that a payload asks for.
pub open spec fn asked_kind(p: CreateSongPayload) -> EntryKind {
    entry_kind_of_code(p.entry_type.deep_view())
}

/// Whether a payload asks for a song that the library does not hold yet.
pub open spec fn brings_song(p: CreateSongPayload) -> bool {
    asked_kind(p) == EntryKind::Song && p.song_id is None
}

/// The library song that a payload brings along, under the id `library_id`.
pub open spec fn brought_song(library_id: Seq<char>, p: CreateSongPayload) -> LibrarySongValue {
    LibrarySongValue {
        id: library_id,
        title: text_or_empty(p.title.deep_view()),
        artist: text_or_empty(p.artist.deep_view()),
        album: p.album.deep_view(),
        duration: p.duration,
        tempo: p.tempo,
        style: p.style.deep_view(),
        notes: p.notes.deep_view(),
    }
}

/// The entry that a payload asks for, under the id `entry_id`, at the position
/// `position`; a song that the payload brings along has the id `library_id`.
pub open spec fn asked_entry(
    entry_id: Seq<char>,
    library_id: Seq<char>,
    position: int,
    p: CreateSongPayload,
) -> PlaylistEntryValue {
    if asked_kind(p) == EntryKind::Event {
        PlaylistEntryValue {
            id: entry_id,
            playlist_id: p.playlist_id@,
            song_id: None,
            position: position as i64,
            kind: EntryKind::Event,
            title: Some(text_or_empty(p.title.deep_view())),
            setlist_name: None,
            join_with_next: false,
        }
    } else {
        PlaylistEntryValue {
            id: entry_id,
            playlist_id: p.playlist_id@,
            song_id: match p.song_id {
                Some(x) => Some(x@),
                None => Some(library_id),
            },
            position: position as i64,
            kind: EntryKind::Song,
            title: None,
            setlist_name: p.setlist_name.deep_view(),
            join_with_next: flag_or_false(p.join_with_next),
        }
    }
}

/// The store holds the playlist that a payload names and, where the payload
/// names a song of the library, that song.
pub open spec fn create_refs_ok(s: SetlistView, p: CreateSongPayload) -> bool {
    &&& playlist_ids(s).contains(p.playlist_id@)
    &&& asked_kind(p) == EntryKind::Song ==> (p.song_id matches Some(x) ==> song_ids(s).contains(
        x@,
    ))
}

/// The ids for the new records are free.
pub open spec fn create_ids_free(
    s: SetlistView,
    entry_id: Seq<char>,
    library_id: Seq<char>,
    p: CreateSongPayload,
) -> bool {
    &&& !entry_ids(s).contains(entry_id)
    &&& brings_song(p) ==> !song_ids(s).contains(library_id)
}

/// The store after the entry that a payload asks for was put at the end of its
/// playlist, and the song that it brings along, if any, into the library.
pub open spec fn with_asked_entry(
    s: SetlistView,
    entry_id: Seq<char>,
    library_id: Seq<char>,
    p: CreateSongPayload,
) -> SetlistView {
    SetlistView {
        playlists: s.playlists,
        songs: if brings_song(p) {
            s.songs.push(brought_song(library_id, p))
        } else {
            s.songs
        },
        entries: s.entries.push(
            asked_entry(entry_id, library_id, running_order(s, p.playlist_id@).len() as int, p),
        ),
    }
}

/// Puts the entry that `song` asks for at the end of its playlist, under the
/// id `entry_id`: an event with a title of its own, a song of the library, or a
/// song that is first added to the library under the id `library_id`. The
/// position of the new entry is the number of entries that the playlist had.
/// Hands back the view of the new entry.
///
/// Refused with `InvalidReference` where the store does not hold the playlist
/// or the song of the library that `song` names, and else with `DuplicateId`
/// where an id for a new record is taken.
pub fn songs_insert(
    store: &mut SetlistStore,
    entry_id: String,
    library_id: String,
    song: CreateSongPayload,
) -> (r: Result<PlaylistSongView, StoreError>)
    requires
        old(store)@.entries.len() <= i64::MAX,
    ensures
        !create_refs_ok(old(store)@, song) ==> refused(r, StoreError::InvalidReference),
        create_refs_ok(old(store)@, song) && !create_ids_free(
            old(store)@,
            entry_id@,
            library_id@,
            song,
        ) ==> refused(r, StoreError::DuplicateId),
        create_refs_ok(old(store)@, song) && create_ids_free(
            old(store)@,
            entry_id@,
            library_id@,
            song,
        ) ==> r is Ok,
        r matches Ok(view) ==> final(store)@ == with_asked_entry(
            old(store)@,
            entry_id@,
            library_id@,
            song,
        ) && view@ == merged_at(final(store)@, old(store)@.entries.len() as int),
        r is Err ==> final(store)@ == old(store)@,
{
    proof {
        lemma_setlist_idents(store);
        lemma_find_id(playlist_ids(store@), song.playlist_id@);
        lemma_find_id(entry_ids(store@), entry_id@);
        lemma_find_id(song_ids(store@), library_id@);
        lemma_running_order(store@, song.playlist_id@);
    }
    let kind = EntryKind::from_code(&song.entry_type);
    let is_event = match kind {
        EntryKind::Event => true,
        EntryKind::Song => false,
    };
    if position_of(&store.playlists, song.playlist_id.as_str()).is_none() {
        return Err(StoreError::InvalidReference);
    }
    if !is_event {
        match &song.song_id {
            Some(x) => {
                proof {
                    lemma_find_id(song_ids(store@), x@);
                }
                if position_of(&store.songs, x.as_str()).is_none() {
                    return Err(StoreError::InvalidReference);
                }
            },
            None => {},
        }
    }
    if position_of(&store.entries, entry_id.as_str()).is_some() {
        return Err(StoreError::DuplicateId);
    }
    let brings = !is_event && song.song_id.is_none();
    if brings && position_of(&store.songs, library_id.as_str()).is_some() {
        return Err(StoreError::DuplicateId);
    }
    let order = playlist_order(store, song.playlist_id.as_str());
    assert(crate::ordering::positions(order@).len() == order@.len());
    let position = order.len() as i64;
    let ghost before = store@;
    if brings {
        let fresh = LibrarySong {
            id: copy_text(&library_id),
            title: given_or_empty(&song.title),
            artist: given_or_empty(&song.artist),
            album: copy_opt_text(&song.album),
            duration: song.duration,
            tempo: song.tempo,
            style: copy_opt_text(&song.style),
            notes: copy_opt_text(&song.notes),
        };
        let ghost value = fresh@;
        store.songs.push(fresh);
        assert(store@.songs =~= before.songs.push(value));
    }
    let entry = if is_event {
        PlaylistEntry {
            id: entry_id,
            playlist_id: copy_text(&song.playlist_id),
            song_id: None,
            position,
            kind: EntryKind::Event,
            title: Some(given_or_empty(&song.title)),
            setlist_name: None,
            join_with_next: false,
        }
    } else {
        PlaylistEntry {
            id: entry_id,
            playlist_id: copy_text(&song.playlist_id),
            song_id: match &song.song_id {
                Some(x) => Some(copy_text(x)),
                None => Some(library_id),
            },
            position,
            kind: EntryKind::Song,
            title: None,
            setlist_name: copy_opt_text(&song.setlist_name),
            join_with_next: match song.join_with_next {
                Some(b) => b,
                None => false,
            },
        }
    };
    let ghost value = entry@;
    let at = store.entries.len();
    store.entries.push(entry);
    assert(store@.entries =~= before.entries.push(value));
    Ok(merged_view(store, at))
}

/// Puts the entry that `song` asks for at the end of its playlist, under fresh ids.
///
/// Refused with `InvalidReference` where the store does not hold the playlist
/// or the song of the library that `song` names, and else with `DuplicateId`
/// where a fresh id is taken.
///
/// Which fresh id is drawn is not known beforehand. Where no id of that kind in
/// the store has the shape of a fresh id, none can be taken, and the call
/// succeeds unless it is refused for what the payload names.
pub fn songs_create(store: &mut SetlistStore, song: CreateSongPayload) -> (r: Result<
    PlaylistSongView,
    StoreError,
>)
    requires
        old(store)@.entries.len() <= i64::MAX,
    ensures
        !create_refs_ok(old(store)@, song) ==> refused(r, StoreError::InvalidReference),
        create_refs_ok(old(store)@, song) && none_fresh(entry_ids(old(store)@)) && none_fresh(
            song_ids(old(store)@),
        ) ==> r is Ok,
        r matches Err(e) ==> (e == StoreError::InvalidReference && !create_refs_ok(
            old(store)@,
            song,
        )) || (e == StoreError::DuplicateId && create_refs_ok(old(store)@, song)),
        r matches Ok(view) ==> exists|library_id: Seq<char>|
            is_hyphenated_id(library_id) && is_hyphenated_id(view@.id) && create_ids_free(
                old(store)@,
                view@.id,
                library_id,
                song,
            ) && final(store)@ == #[trigger] with_asked_entry(
                old(store)@,
                view@.id,
                library_id,
                song,
            ) && view@ == merged_at(final(store)@, old(store)@.entries.len() as int),
        r is Err ==> final(store)@ == old(store)@,
{
    let entry_id = fresh_id();
    let library_id = fresh_id();
    let ghost e = entry_id@;
    let ghost l = library_id@;
    let r = songs_insert(store, entry_id, library_id, song);
    proof {
        if r is Ok {
            let view = r->Ok_0;
            let done = with_asked_entry(old(store)@, e, l, song);
            assert(done.entries[old(store)@.entries.len() as int].id == e);
            assert(view@.id == e);
            assert(store@ == with_asked_entry(old(store)@, view@.id, l, song));
        }
    }
    r
}

/// The kind of entry that a payload treats the entry as.
pub open spec fn treated_kind(p: UpdateSongPayload) -> EntryKind {
    entry_kind_of_code(p.entry_type.deep_view())
}

/// Whether a payload changes a song of the library.
pub open spec fn changes_song(p: UpdateSongPayload) -> bool {
    treated_kind(p) == EntryKind::Song && p.song_id is Some
}

/// The entry `e` as a payload changes it: an event gets the title, the setlist
/// name and the join flag of the payload, a song the setlist name and the join flag.
pub open spec fn changed_entry(e: PlaylistEntryValue, p: UpdateSongPayload) -> PlaylistEntryValue {
    if treated_kind(p) == EntryKind::Event {
        PlaylistEntryValue {
            title: p.title.deep_view(),
            setlist_name: p.setlist_name.deep_view(),
            join_with_next: flag_or_false(p.join_with_next),
            ..e
        }
    } else {
        PlaylistEntryValue {
            setlist_name: p.setlist_name.deep_view(),
            join_with_next: flag_or_false(p.join_with_next),
            ..e
        }
    }
}

/// The library song `s` as a payload changes it.
pub open spec fn changed_song(s: LibrarySongValue, p: UpdateSongPayload) -> LibrarySongValue {
    LibrarySongValue {
        id: s.id,
        title: text_or_empty(p.title.deep_view()),
        artist: text_or_empty(p.artist.deep_view()),
        album: p.album.deep_view(),
        duration: p.duration,
        tempo: p.tempo,
        style: p.style.deep_view(),
        notes: p.notes.deep_view(),
    }
}

/// The store after the entry at place `i` was changed as a payload says, and
/// the library song at place `j` where the payload changes a song.
pub open spec fn with_changes(s: SetlistView, i: int, j: int, p: UpdateSongPayload) -> SetlistView {
    SetlistView {
        playlists: s.playlists,
        songs: if changes_song(p) {
            s.songs.update(j, changed_song(s.songs[j], p))
        } else {
            s.songs
        },
        entries: s.entries.update(i, changed_entry(s.entries[i], p)),
    }
}

/// The place of the library song that a payload changes, if it changes one
/// that the library holds.
pub open spec fn changed_song_place(s: SetlistView, p: UpdateSongPayload) -> Option<int> {
    match p.song_id {
        Some(x) => find_id(song_ids(s), x@),
        None => None,
    }
}

/// Changes the entry with the id of `song` and, for a song, the song of the
/// library that `song` names, for every playlist that holds it. Hands back the
/// view of the changed entry.
///
/// Refused with `NotFound` where the store holds no entry with the id, else
/// with `InvalidReference` where `song` changes a song that the library does
/// not hold, and else with `MissingValue` where it changes a song and gives no
/// title or no artist.
pub fn songs_update(store: &mut SetlistStore, song: UpdateSongPayload) -> (r: Result<
    PlaylistSongView,
    StoreError,
>)
    ensures
        find_id(entry_ids(old(store)@), song.id@) is None ==> refused(r, StoreError::NotFound),
        find_id(entry_ids(old(store)@), song.id@) is Some && changes_song(song)
            && changed_song_place(old(store)@, song) is None ==> refused(
            r,
            StoreError::InvalidReference,
        ),
        find_id(entry_ids(old(store)@), song.id@) is Some && changes_song(song)
            && changed_song_place(old(store)@, song) is Some && (song.title is None
            || song.artist is None) ==> refused(r, StoreError::MissingValue),
        find_id(entry_ids(old(store)@), song.id@) is Some && (changes_song(song) ==> (
        changed_song_place(old(store)@, song) is Some && song.title is Some && song.artist
            is Some)) ==> r is Ok,
        r matches Ok(view) ==> final(store)@ == with_changes(
            old(store)@,
            find_id(entry_ids(old(store)@), song.id@)->0,
            changed_song_place(old(store)@, song)->0,
            song,
        ) && view@ == merged_at(final(store)@, find_id(entry_ids(old(store)@), song.id@)->0),
        r is Err ==> final(store)@ == old(store)@,
{
    proof {
        lemma_setlist_idents(store);
    }
    let i = match position_of(&store.entries, song.id.as_str()) {
        Some(i) => i,
        None => {
            return Err(StoreError::NotFound);
        },
    };
    let kind = EntryKind::from_code(&song.entry_type);
    let is_event = match kind {
        EntryKind::Event => true,
        EntryKind::Song => false,
    };
    let ghost before = store@;
    let mut changed_at: Option<usize> = None;
    if !is_event {
        match &song.song_id {
            Some(x) => {
                match position_of(&store.songs, x.as_str()) {
                    Some(j) => {
                        if song.title.is_none() || song.artist.is_none() {
                            return Err(StoreError::MissingValue);
                        }
                        changed_at = Some(j);
                    },
                    None => {
                        return Err(StoreError::InvalidReference);
                    },
                }
            },
            None => {},
        }
    }
    match changed_at {
        Some(j) => {
            let ghost was = store.songs@[j as int]@;
            assert(before.songs[j as int] == was);
            store.songs[j].title = given_or_empty(&song.title);
            store.songs[j].artist = given_or_empty(&song.artist);
            store.songs[j].album = copy_opt_text(&song.album);
            store.songs[j].duration = song.duration;
            store.songs[j].tempo = song.tempo;
            store.songs[j].style = copy_opt_text(&song.style);
            store.songs[j].notes = copy_opt_text(&song.notes);
            assert(store@.songs =~= before.songs.update(j as int, changed_song(was, song)));
        },
        None => {},
    }
    let ghost was = store.entries@[i as int]@;
    assert(before.entries[i as int] == was);
    if is_event {
        store.entries[i].title = copy_opt_text(&song.title);
    }
    store.entries[i].setlist_name = copy_opt_text(&song.setlist_name);
    store.entries[i].join_with_next = match song.join_with_next {
        Some(b) => b,
        None => false,
    };
    assert(store@.entries =~= before.entries.update(i as int, changed_entry(was, song)));
    Ok(merged_view(store, i))
}

/// The store without the entry at place `i`, the entries of its playlist
/// numbered from 0.
pub open spec fn without_entry(s: SetlistView, i: int) -> SetlistView {
    renormalized(SetlistView { entries: s.entries.remove(i), ..s }, s.entries[i].playlist_id)
}

/// Removes the entry with the id `id` and closes the gap in its playlist.
///
/// Refused with `NotFound` where the store holds no entry with the id.
pub fn songs_delete(store: &mut SetlistStore, id: String) -> (r: Result<(), StoreError>)
    requires
        old(store)@.entries.len() <= i64::MAX,
    ensures
        find_id(entry_ids(old(store)@), id@) is None ==> r == Err::<(), StoreError>(
            StoreError::NotFound,
        ) && final(store)@ == old(store)@,
        find_id(entry_ids(old(store)@), id@) is Some ==> r is Ok && final(store)@ == without_entry(
            old(store)@,
            find_id(entry_ids(old(store)@), id@)->0,
        ),
{
    proof {
        lemma_setlist_idents(store);
        lemma_find_id(entry_ids(store@), id@);
    }
    match position_of(&store.entries, id.as_str()) {
        None => Err(StoreError::NotFound),
        Some(i) => {
            let removed = store.entries.remove(i);
            assert(store@.entries =~= old(store)@.entries.remove(i as int));
            assert(removed@ == old(store)@.entries[i as int]);
            renormalize_positions(store, removed.playlist_id.as_str());
            Ok(())
        },
    }
}

/// `k` is the last place of `ids` that holds `id`.
pub open spec fn last_at(ids: Seq<Seq<char>>, id: Seq<char>, k: int) -> bool {
    &&& 0 <= k < ids.len()
    &&& ids[k] == id
    &&& forall|j: int| k < j < ids.len() ==> ids[j] != id
}

/// The last place of `ids` that holds `id`, if there is one.
pub open spec fn last_place(ids: Seq<Seq<char>>, id: Seq<char>) -> Option<int> {
    if exists|k: int| last_at(ids, id, k) {
        Some(choose|k: int| last_at(ids, id, k))
    } else {
        None
    }
}

/// Finds the last place of `ids` that holds `id`.
pub fn find_last(ids: &Vec<String>, id: &str) -> (r: Option<usize>)
    ensures
        match r {
            Some(k) => last_place(ids.deep_view(), id@) == Some(k as int) && last_at(
                ids.deep_view(),
                id@,
                k as int,
            ),
            None => last_place(ids.deep_view(), id@) is None && !ids.deep_view().contains(id@),
        },
{
    let ghost all = ids.deep_view();
    let mut k: usize = ids.len();
    while k > 0
        invariant
            k <= ids@.len(),
            all == ids.deep_view(),
            forall|j: int| k <= j < all.len() ==> all[j] != id@,
        decreases k,
    {
        k = k - 1;
        assert(all[k as int] == ids@[k as int]@);
        if is_same_text(ids[k].as_str(), id) {
            proof {
                assert(last_at(all, id@, k as int));
                let c = choose|c: int| last_at(all, id@, c);
                if c < k {
                    assert(all[k as int] != id@);
                }
                if k < c {
                    assert(all[c] != id@);
                }
            }
            return Some(k);
        }
    }
    proof {
        if exists|c: int| last_at(all, id@, c) {
            let c = choose|c: int| last_at(all, id@, c);
            assert(all[c] != id@);
        }
        if all.contains(id@) {
            let c = choose|c: int| 0 <= c < all.len() && all[c] == id@;
            assert(all[c] != id@);
        }
    }
    None
}

/// An entry after the entries `ids` of the playlist `playlist` were put in the
/// order of `ids`: an entry of the playlist that `ids` names has the last place
/// at which `ids` names it as its position, every other entry stays.
pub open spec fn reordered_entry(
    e: PlaylistEntryValue,
    playlist: Seq<char>,
    ids: Seq<Seq<char>>,
) -> PlaylistEntryValue {
    if e.playlist_id == playlist {
        match last_place(ids, e.id) {
            Some(k) => PlaylistEntryValue { position: k as i64, ..e },
            None => e,
        }
    } else {
        e
    }
}

/// The store after the entries `ids` of the playlist `playlist` were put in the
/// order of `ids`.
pub open spec fn reordered(s: SetlistView, playlist: Seq<char>, ids: Seq<Seq<char>>) -> SetlistView {
    SetlistView {
        entries: Seq::new(s.entries.len(), |i: int| reordered_entry(s.entries[i], playlist, ids)),
        ..s
    }
}

/// Puts the entries of a playlist in the order in which `payload` names them:
/// the entry named at place `k` gets the position `k`. Hands back the views of
/// the playlist's entries in their new running order.
///
/// An id that is not the id of an entry of the playlist is passed over: the
/// entry it names, if any, stays as it is. Never refused.
pub fn songs_reorder(store: &mut SetlistStore, payload: ReorderPayload) -> (r: Result<
    Vec<PlaylistSongView>,
    StoreError,
>)
    requires
        payload.ids@.len() <= i64::MAX,
    ensures
        r is Ok,
        final(store)@ == reordered(old(store)@, payload.playlist_id@, payload.ids.deep_view()),
        r matches Ok(views) ==> views.deep_view() == playlist_views(
            final(store)@,
            payload.playlist_id@,
        ),
{
    let ghost ids = payload.ids.deep_view();
    let ghost before = store@;
    let mut i: usize = 0;
    while i < store.entries.len()
        invariant
            i <= store@.entries.len(),
            ids == payload.ids.deep_view(),
            ids.len() <= i64::MAX,
            store@.entries.len() == before.entries.len(),
            store@.playlists == before.playlists,
            store@.songs == before.songs,
            forall|j: int|
                0 <= j < i ==> #[trigger] store@.entries[j] == reordered_entry(
                    before.entries[j],
                    payload.playlist_id@,
                    ids,
                ),
            forall|j: int|
                i <= j < before.entries.len() ==> #[trigger] store@.entries[j]
                    == before.entries[j],
        decreases store@.entries.len() - i,
    {
        let ghost prev = store.entries@;
        let ghost mid = store@;
        assert(mid.entries[i as int] == prev[i as int]@);
        if is_same_text(store.entries[i].playlist_id.as_str(), payload.playlist_id.as_str()) {
            match find_last(&payload.ids, store.entries[i].id.as_str()) {
                Some(place) => {
                    store.entries[i].position = place as i64;
                },
                None => {},
            }
        }
        proof {
            let now = store.entries@;
            assert(forall|j: int| 0 <= j < prev.len() && j != i ==> now[j] == prev[j]);
            assert forall|j: int| 0 <= j < prev.len() && j != i implies #[trigger] store@.entries[j]
                == mid.entries[j] by {
                assert(store@.entries[j] == now[j]@);
                assert(mid.entries[j] == prev[j]@);
            }
            assert(store@.entries[i as int] == now[i as int]@);
        }
        i = i + 1;
    }
    assert(store@.entries =~= reordered(before, payload.playlist_id@, ids).entries);
    Ok(songs_get_by_playlist(store, payload.playlist_id))
}

} // verus!
