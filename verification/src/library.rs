//! The song library: listing, adding, changing and removing songs, and putting
//! a song of the library at the end of a playlist.
//!
//! Removing a song removes its entries from every playlist and closes the gaps
//! in the playlists that lost an entry.

use vstd::prelude::*;
use crate::ids::{fresh_id, is_hyphenated_id, none_fresh};
use crate::ordering::OrderKeyView;
use crate::setlist_model::{
    library_song_of, song_view_of, AddToPlaylistPayload, CreateLibrarySongPayload, EntryKind,
    LibrarySong, LibrarySongValue, PlaylistEntry, PlaylistEntryValue, PlaylistSongView,
};
use crate::setlists::{
    entry_ids, lemma_running_order, lemma_setlist_idents, library_song_key, playlist_ids,
    playlist_order, renormalize_positions, renormalized, running_order, song_ids, SetlistStore,
    SetlistView,
};
use crate::store::{
    arranged_by, find_id, lemma_find_id, listed, listing_keys, position_of, refused, StoreError,
};
use crate::text::{copy_text, holds_text, is_same_text};

verus! {

/// The listing keys of the library songs, in store order.
pub open spec fn library_keys(s: SetlistView) -> Seq<OrderKeyView> {
    Seq::new(s.songs.len(), |i: int| library_song_key(s.songs[i]))
}

/// The songs of the library by title.
pub fn library_get_all(store: &SetlistStore) -> (r: Vec<LibrarySong>)
    ensures
        r.deep_view() == arranged_by(store@.songs, library_keys(store@)),
{
    assert(listing_keys(store.songs@) =~= library_keys(store@));
    listed(&store.songs)
}

/// The store with one more library song at the end.
pub open spec fn with_library_song(s: SetlistView, song: LibrarySongValue) -> SetlistView {
    SetlistView { songs: s.songs.push(song), ..s }
}

/// Adds the song that `payload` describes to the library under the id `id`.
///
/// Refused with `DuplicateId` where the library already holds a song with the id.
pub fn library_insert(store: &mut SetlistStore, id: String, payload: CreateLibrarySongPayload) -> (r:
    Result<LibrarySong, StoreError>)
    ensures
        song_ids(old(store)@).contains(id@) ==> refused(r, StoreError::DuplicateId),
        !song_ids(old(store)@).contains(id@) ==> r is Ok,
        r matches Ok(song) ==> song@ == library_song_of(id@, payload) && final(store)@
            == with_library_song(old(store)@, song@),
        r is Err ==> final(store)@ == old(store)@,
{
    proof {
        lemma_setlist_idents(store);
        lemma_find_id(song_ids(store@), id@);
    }
    if position_of(&store.songs, id.as_str()).is_some() {
        return Err(StoreError::DuplicateId);
    }
    let song = LibrarySong::from_payload(id, payload);
    let out = song.copy();
    store.songs.push(song);
    assert(store@.songs =~= old(store)@.songs.push(out@));
    Ok(out)
}

/// Adds the song that `payload` describes to the library under a fresh id.
///
/// Refused with `DuplicateId` where the fresh id is that of a song of the library.
///
/// Which fresh id is drawn is not known beforehand. Where no id of that kind in
/// the store has the shape of a fresh id, none can be taken, and the call
/// succeeds unless it is refused for what the payload names.
pub fn library_create(store: &mut SetlistStore, payload: CreateLibrarySongPayload) -> (r: Result<
    LibrarySong,
    StoreError,
>)
    ensures
        none_fresh(song_ids(old(store)@)) ==> r is Ok,
        r matches Err(e) ==> e == StoreError::DuplicateId,
        r matches Ok(song) ==> is_hyphenated_id(song@.id) && !song_ids(old(store)@).contains(
            song@.id,
        ) && song@ == library_song_of(song@.id, payload) && final(store)@ == with_library_song(
            old(store)@,
            song@,
        ),
        r is Err ==> final(store)@ == old(store)@,
{
    library_insert(store, fresh_id(), payload)
}

/// The store with the library song at position `i` replaced.
pub open spec fn with_library_song_at(s: SetlistView, i: int, song: LibrarySongValue) -> SetlistView {
    SetlistView { songs: s.songs.update(i, song), ..s }
}

/// Replaces the library song that has the id of `song` by `song`.
///
/// Refused with `NotFound` where the library holds no song with the id.
pub fn library_update(store: &mut SetlistStore, song: LibrarySong) -> (r: Result<
    LibrarySong,
    StoreError,
>)
    ensures
        find_id(song_ids(old(store)@), song@.id) is None ==> refused(r, StoreError::NotFound),
        find_id(song_ids(old(store)@), song@.id) is Some ==> r is Ok,
        r matches Ok(out) ==> out@ == song@ && final(store)@ == with_library_song_at(
            old(store)@,
            find_id(song_ids(old(store)@), song@.id)->0,
            song@,
        ),
        r is Err ==> final(store)@ == old(store)@,
{
    proof {
        lemma_setlist_idents(store);
    }
    match position_of(&store.songs, song.id.as_str()) {
        Some(i) => {
            let out = song.copy();
            store.songs[i] = song;
            assert(store@.songs =~= old(store)@.songs.update(i as int, out@));
            Ok(out)
        },
        None => Err(StoreError::NotFound),
    }
}

/// The playlists that hold the song `song` among the first `n` entries: the id
/// of each such playlist once, in the order in which the store first names it.
pub open spec fn usage_upto(s: SetlistView, song: Seq<char>, n: nat) -> Seq<Seq<char>>
    decreases n,
{
    if n == 0 {
        Seq::empty()
    } else {
        let rest = usage_upto(s, song, (n - 1) as nat);
        let e = s.entries[n - 1];
        if e.song_id == Some(song) && !rest.contains(e.playlist_id) {
            rest.push(e.playlist_id)
        } else {
            rest
        }
    }
}

/// The playlists that hold the song `song`.
pub open spec fn usage(s: SetlistView, song: Seq<char>) -> Seq<Seq<char>> {
    usage_upto(s, song, s.entries.len())
}

/// The ids of the playlists that hold the song `id`, each once.
pub fn library_get_usage(store: &SetlistStore, id: String) -> (r: Vec<String>)
    ensures
        r.deep_view() == usage(store@, id@),
{
    let mut r: Vec<String> = Vec::new();
    let mut i: usize = 0;
    assert(r.deep_view() =~= usage_upto(store@, id@, 0));
    while i < store.entries.len()
        invariant
            i <= store@.entries.len(),
            r.deep_view() == usage_upto(store@, id@, i as nat),
        decreases store@.entries.len() - i,
    {
        let ghost before = r.deep_view();
        let entry = &store.entries[i];
        assert(store@.entries[i as int] == entry@);
        let uses = match &entry.song_id {
            Some(x) => is_same_text(x.as_str(), id.as_str()),
            None => false,
        };
        if uses && !holds_text(&r, entry.playlist_id.as_str()) {
            r.push(copy_text(&entry.playlist_id));
            assert(r.deep_view() =~= before.push(entry@.playlist_id));
        }
        i = i + 1;
    }
    r
}

/// The entries among the first `n` that are not entries of the song `song`.
pub open spec fn entries_without_song(
    entries: Seq<PlaylistEntryValue>,
    song: Seq<char>,
    n: nat,
) -> Seq<PlaylistEntryValue>
    decreases n,
{
    if n == 0 {
        Seq::empty()
    } else {
        let rest = entries_without_song(entries, song, (n - 1) as nat);
        if entries[n - 1].song_id == Some(song) {
            rest
        } else {
            rest.push(entries[n - 1])
        }
    }
}

/// The store after the first `n` of the playlists `playlists` had their entries
/// numbered from 0, one playlist after the other.
pub open spec fn renormalized_each(s: SetlistView, playlists: Seq<Seq<char>>, n: nat) -> SetlistView
    decreases n,
{
    if n == 0 {
        s
    } else {
        renormalized(renormalized_each(s, playlists, (n - 1) as nat), playlists[n - 1])
    }
}

/// The store without the library song at position `i`: the song is gone, its
/// entries are gone from every playlist, and each playlist that held it has its
/// entries numbered from 0.
pub open spec fn without_library_song(s: SetlistView, i: int) -> SetlistView {
    let id = s.songs[i].id;
    let thinned = SetlistView {
        songs: s.songs.remove(i),
        entries: entries_without_song(s.entries, id, s.entries.len()),
        ..s
    };
    renormalized_each(thinned, usage(s, id), usage(s, id).len())
}

/// No more entries are left than there were.
pub proof fn lemma_entries_without_song(entries: Seq<PlaylistEntryValue>, song: Seq<char>, n: nat)
    ensures
        entries_without_song(entries, song, n).len() <= n,
    decreases n,
{
    if n > 0 {
        lemma_entries_without_song(entries, song, (n - 1) as nat);
    }
}

/// Numbering the entries of playlists leaves the number of entries as it was.
pub proof fn lemma_renormalized_each_len(s: SetlistView, playlists: Seq<Seq<char>>, n: nat)
    requires
        s.entries.len() <= i64::MAX,
    ensures
        renormalized_each(s, playlists, n).entries.len() == s.entries.len(),
    decreases n,
{
    if n > 0 {
        let prev = renormalized_each(s, playlists, (n - 1) as nat);
        lemma_renormalized_each_len(s, playlists, (n - 1) as nat);
        lemma_running_order(prev, playlists[n - 1]);
        crate::setlists::lemma_renumbered(
            prev.entries,
            running_order(prev, playlists[n - 1]),
            running_order(prev, playlists[n - 1]).len(),
        );
    }
}

/// Removes the song with the id `id` from the library and its entries from
/// every playlist, and closes the gaps in the playlists that held it.
///
/// Never refused: where the library holds no song with the id, nothing changes.
pub fn library_delete(store: &mut SetlistStore, id: String) -> (r: Result<(), StoreError>)
    requires
        old(store)@.entries.len() <= i64::MAX,
    ensures
        r is Ok,
        find_id(song_ids(old(store)@), id@) is None ==> final(store)@ == old(store)@,
        find_id(song_ids(old(store)@), id@) is Some ==> final(store)@
            == without_library_song(old(store)@, find_id(song_ids(old(store)@), id@)->0),
{
    proof {
        lemma_setlist_idents(store);
        lemma_find_id(song_ids(store@), id@);
    }
    let found = position_of(&store.songs, id.as_str());
    match found {
        None => Ok(()),
        Some(i) => {
            let ghost before = store@;
            let affected = library_get_usage(store, copy_text(&id));
            let mut kept: Vec<PlaylistEntry> = Vec::new();
            let mut k: usize = 0;
            assert(kept.deep_view() =~= entries_without_song(before.entries, id@, 0));
            while k < store.entries.len()
                invariant
                    k <= store@.entries.len(),
                    store@ == before,
                    kept.deep_view() == entries_without_song(before.entries, id@, k as nat),
                decreases store@.entries.len() - k,
            {
                let ghost had = kept.deep_view();
                let entry = &store.entries[k];
                assert(store@.entries[k as int] == entry@);
                let uses = match &entry.song_id {
                    Some(x) => is_same_text(x.as_str(), id.as_str()),
                    None => false,
                };
                if !uses {
                    kept.push(entry.copy());
                    assert(kept.deep_view() =~= had.push(entry@));
                }
                k = k + 1;
            }
            store.entries = kept;
            store.songs.remove(i);
            assert(store@.songs =~= before.songs.remove(i as int));
            let ghost thinned = store@;
            proof {
                lemma_entries_without_song(before.entries, id@, before.entries.len());
            }
            let mut a: usize = 0;
            while a < affected.len()
                invariant
                    a <= affected@.len(),
                    affected.deep_view() == usage(before, id@),
                    thinned.entries.len() <= i64::MAX,
                    store@ == renormalized_each(thinned, usage(before, id@), a as nat),
                decreases affected@.len() - a,
            {
                proof {
                    lemma_renormalized_each_len(thinned, usage(before, id@), a as nat);
                    assert(affected.deep_view()[a as int] == affected@[a as int]@);
                }
                renormalize_positions(store, affected[a].as_str());
                a = a + 1;
            }
            assert(affected.deep_view().len() == affected@.len());
            Ok(())
        },
    }
}

/// The entry that puts the song of `payload` at position `position` of its
/// playlist, under the id `id`.
pub open spec fn added_entry(
    id: Seq<char>,
    position: int,
    p: AddToPlaylistPayload,
) -> PlaylistEntryValue {
    PlaylistEntryValue {
        id,
        playlist_id: p.playlist_id@,
        song_id: Some(p.song_id@),
        position: position as i64,
        kind: EntryKind::Song,
        title: None,
        setlist_name: p.setlist_name.deep_view(),
        join_with_next: match p.join_with_next {
            Some(b) => b,
            None => false,
        },
    }
}

/// The store with one more entry at the end.
pub open spec fn with_entry(s: SetlistView, e: PlaylistEntryValue) -> SetlistView {
    SetlistView { entries: s.entries.push(e), ..s }
}

/// Puts the song of the library that `payload` names at the end of the playlist
/// that it names, as an entry with the id `id`. The position of the new entry
/// is the number of entries that the playlist had.
///
/// Refused with `NotFound` where the library holds no song with the id of the
/// payload, else with `InvalidReference` where the store holds no playlist with
/// the id of the payload, and else with `DuplicateId` where it already holds an
/// entry with the id `id`.
pub fn library_put_in_playlist(store: &mut SetlistStore, id: String, payload: AddToPlaylistPayload) -> (r:
    Result<PlaylistSongView, StoreError>)
    requires
        old(store)@.entries.len() <= i64::MAX,
    ensures
        find_id(song_ids(old(store)@), payload.song_id@) is None ==> refused(
            r,
            StoreError::NotFound,
        ),
        find_id(song_ids(old(store)@), payload.song_id@) is Some && !playlist_ids(
            old(store)@,
        ).contains(payload.playlist_id@) ==> refused(r, StoreError::InvalidReference),
        find_id(song_ids(old(store)@), payload.song_id@) is Some && playlist_ids(
            old(store)@,
        ).contains(payload.playlist_id@) && entry_ids(old(store)@).contains(id@) ==> refused(
            r,
            StoreError::DuplicateId,
        ),
        find_id(song_ids(old(store)@), payload.song_id@) is Some && playlist_ids(
            old(store)@,
        ).contains(payload.playlist_id@) && !entry_ids(old(store)@).contains(id@) ==> r is Ok,
        r matches Ok(view) ==> {
            let entry = added_entry(
                id@,
                running_order(old(store)@, payload.playlist_id@).len() as int,
                payload,
            );
            &&& final(store)@ == with_entry(old(store)@, entry)
            &&& view@ == song_view_of(
                entry,
                Some(old(store)@.songs[find_id(song_ids(old(store)@), payload.song_id@)->0]),
            )
        },
        r is Err ==> final(store)@ == old(store)@,
{
    proof {
        lemma_setlist_idents(store);
        lemma_find_id(playlist_ids(store@), payload.playlist_id@);
        lemma_find_id(entry_ids(store@), id@);
        lemma_running_order(store@, payload.playlist_id@);
    }
    let song_at = match position_of(&store.songs, payload.song_id.as_str()) {
        Some(i) => i,
        None => {
            return Err(StoreError::NotFound);
        },
    };
    if position_of(&store.playlists, payload.playlist_id.as_str()).is_none() {
        return Err(StoreError::InvalidReference);
    }
    if position_of(&store.entries, id.as_str()).is_some() {
        return Err(StoreError::DuplicateId);
    }
    let order = playlist_order(store, payload.playlist_id.as_str());
    assert(crate::ordering::positions(order@).len() == order@.len());
    let position = order.len() as i64;
    let entry = PlaylistEntry {
        id,
        playlist_id: payload.playlist_id,
        song_id: Some(payload.song_id),
        position,
        kind: EntryKind::Song,
        title: None,
        setlist_name: payload.setlist_name,
        join_with_next: match payload.join_with_next {
            Some(b) => b,
            None => false,
        },
    };
    assert(store@.songs[song_at as int] == store.songs@[song_at as int]@);
    let view = PlaylistSongView::of_entry(&entry, Some(&store.songs[song_at]));
    let ghost value = entry@;
    store.entries.push(entry);
    assert(store@.entries =~= old(store)@.entries.push(value));
    Ok(view)
}

/// Puts the song of the library that `payload` names at the end of the playlist
/// that it names, as an entry with a fresh id.
///
/// Refused with `NotFound` where the library holds no song with the id of the
/// payload, else with `InvalidReference` where the store holds no playlist with
/// the id of the payload, and else with `DuplicateId` where the fresh id is that
/// of an entry of the store.
///
/// Which fresh id is drawn is not known beforehand. Where no id of that kind in
/// the store has the shape of a fresh id, none can be taken, and the call
/// succeeds unless it is refused for what the payload names.
pub fn library_add_to_playlist(store: &mut SetlistStore, payload: AddToPlaylistPayload) -> (r: Result<
    PlaylistSongView,
    StoreError,
>)
    requires
        old(store)@.entries.len() <= i64::MAX,
    ensures
        find_id(song_ids(old(store)@), payload.song_id@) is None ==> refused(
            r,
            StoreError::NotFound,
        ),
        find_id(song_ids(old(store)@), payload.song_id@) is Some && !playlist_ids(
            old(store)@,
        ).contains(payload.playlist_id@) ==> refused(r, StoreError::InvalidReference),
        find_id(song_ids(old(store)@), payload.song_id@) is Some && playlist_ids(
            old(store)@,
        ).contains(payload.playlist_id@) && none_fresh(entry_ids(old(store)@)) ==> r is Ok,
        r matches Err(e) ==> (e == StoreError::NotFound && find_id(
            song_ids(old(store)@),
            payload.song_id@,
        ) is None) || (e == StoreError::InvalidReference && find_id(
            song_ids(old(store)@),
            payload.song_id@,
        ) is Some && !playlist_ids(old(store)@).contains(payload.playlist_id@)) || (e
            == StoreError::DuplicateId && find_id(song_ids(old(store)@), payload.song_id@) is Some
            && playlist_ids(old(store)@).contains(payload.playlist_id@)),
        r matches Ok(view) ==> {
            let entry = added_entry(
                view@.id,
                running_order(old(store)@, payload.playlist_id@).len() as int,
                payload,
            );
            &&& is_hyphenated_id(view@.id)
            &&& !entry_ids(old(store)@).contains(view@.id)
            &&& final(store)@ == with_entry(old(store)@, entry)
            &&& view@ == song_view_of(
                entry,
                Some(old(store)@.songs[find_id(song_ids(old(store)@), payload.song_id@)->0]),
            )
        },
        r is Err ==> final(store)@ == old(store)@,
{
    library_put_in_playlist(store, fresh_id(), payload)
}

} // verus!
