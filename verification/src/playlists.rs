//! Playlists: listing them with their statistics, adding, renaming and
//! removing them.
//!
//! Removing a playlist removes its entries.

use vstd::prelude::*;
use crate::ids::{fresh_id, is_hyphenated_id, none_fresh, time_stamp};
use crate::ordering::{OrderKey, OrderKeyView};
use crate::setlist_model::{
    playlist_of, CreatePlaylistPayload, EntryKind, Playlist, PlaylistEntry, PlaylistEntryValue,
    PlaylistStatsValue, PlaylistValue, PlaylistWithStats,
};
use crate::setlists::{
    lemma_setlist_idents, playlist_ids, playlist_key, song_of, SetlistStore, SetlistView,
};
use crate::store::{
    arranged_by, find_id, lemma_find_id, listed, listing_keys, position_of, refused, Record,
    StoreError,
};
use crate::text::{copy_opt_text, copy_text, is_same_text};

verus! {

impl PlaylistWithStats {
    /// A fresh copy.
    pub fn copy(&self) -> (r: PlaylistWithStats)
        ensures
            r@ == self@,
    {
        PlaylistWithStats {
            id: copy_text(&self.id),
            name: copy_text(&self.name),
            description: copy_opt_text(&self.description),
            created_at: copy_text(&self.created_at),
            song_count: self.song_count,
            total_duration: self.total_duration,
        }
    }
}

/// The listing key of a playlist with statistics: the moment it was made.
pub open spec fn stats_key(p: PlaylistStatsValue) -> OrderKeyView {
    OrderKeyView { group: 0, order: 0, name: p.created_at, tie: Seq::empty() }
}

impl Record for PlaylistWithStats {
    open spec fn ident(&self) -> Seq<char> {
        self.id@
    }

    open spec fn listing_key(&self) -> OrderKeyView {
        stats_key(self@)
    }

    fn id_text(&self) -> (r: &String) {
        &self.id
    }

    fn order_key(&self) -> (r: OrderKey) {
        OrderKey { group: 0, order: 0, name: copy_text(&self.created_at), tie: String::new() }
    }

    fn duplicate(&self) -> (r: Self) {
        self.copy()
    }
}

/// Whether an entry counts as a song of the playlist `playlist`.
pub open spec fn is_song_of(e: PlaylistEntryValue, playlist: Seq<char>) -> bool {
    e.playlist_id == playlist && e.kind != EntryKind::Event
}

/// The number of songs of the playlist `playlist` among the first `n` entries.
pub open spec fn song_count(s: SetlistView, playlist: Seq<char>, n: nat) -> int
    decreases n,
{
    if n == 0 {
        0
    } else {
        song_count(s, playlist, (n - 1) as nat) + if is_song_of(s.entries[n - 1], playlist) {
            1int
        } else {
            0int
        }
    }
}

/// What an entry adds to the duration of the playlist `playlist`: the duration
/// of its song, where it counts as a song and the library knows a duration.
pub open spec fn duration_of(s: SetlistView, playlist: Seq<char>, i: int) -> int {
    if is_song_of(s.entries[i], playlist) {
        match song_of(s, s.entries[i].song_id) {
            Some(song) => match song.duration {
                Some(d) => d as int,
                None => 0,
            },
            None => 0,
        }
    } else {
        0
    }
}

/// The total duration of the songs of the playlist `playlist` among the first
/// `n` entries.
pub open spec fn total_duration(s: SetlistView, playlist: Seq<char>, n: nat) -> int
    decreases n,
{
    if n == 0 {
        0
    } else {
        total_duration(s, playlist, (n - 1) as nat) + duration_of(s, playlist, n - 1)
    }
}

/// A playlist with its statistics.
pub open spec fn stats_of(s: SetlistView, p: PlaylistValue) -> PlaylistStatsValue {
    PlaylistStatsValue {
        id: p.id,
        name: p.name,
        description: p.description,
        created_at: p.created_at,
        song_count: song_count(s, p.id, s.entries.len()),
        total_duration: total_duration(s, p.id, s.entries.len()),
    }
}

/// The statistics of a playlist fit the 64 bits they are kept in.
pub open spec fn stats_fit(s: SetlistView, p: PlaylistValue) -> bool {
    &&& song_count(s, p.id, s.entries.len()) <= i64::MAX
    &&& i64::MIN <= total_duration(s, p.id, s.entries.len()) <= i64::MAX
}

/// The playlists with their statistics, in store order.
pub open spec fn all_stats(s: SetlistView) -> Seq<PlaylistStatsValue> {
    Seq::new(s.playlists.len(), |i: int| stats_of(s, s.playlists[i]))
}

/// The listing keys of the playlists, in store order.
pub open spec fn playlist_keys(s: SetlistView) -> Seq<OrderKeyView> {
    Seq::new(s.playlists.len(), |i: int| playlist_key(s.playlists[i]))
}

/// The number of songs and their total duration for the playlist `playlist`,
/// or nothing where one of them does not fit 64 bits.
fn statistics(store: &SetlistStore, playlist: &str) -> (r: Option<(i64, i64)>)
    ensures
        match r {
            Some((count, total)) => count == song_count(
                store@,
                playlist@,
                store@.entries.len(),
            ) && total == total_duration(store@, playlist@, store@.entries.len()),
            None => !(song_count(store@, playlist@, store@.entries.len()) <= i64::MAX && i64::MIN
                <= total_duration(store@, playlist@, store@.entries.len()) <= i64::MAX),
        },
{
    let mut count: i128 = 0;
    let mut total: i128 = 0;
    let mut i: usize = 0;
    while i < store.entries.len()
        invariant
            i <= store@.entries.len(),
            count == song_count(store@, playlist@, i as nat),
            total == total_duration(store@, playlist@, i as nat),
            0 <= count <= i,
            -(i as int) * 0x8000_0000_0000_0000 <= total <= (i as int) * 0x8000_0000_0000_0000,
        decreases store@.entries.len() - i,
    {
        let entry = &store.entries[i];
        assert(store@.entries[i as int] == entry@);
        let counts = is_same_text(entry.playlist_id.as_str(), playlist) && match entry.kind {
            EntryKind::Event => false,
            EntryKind::Song => true,
        };
        if counts {
            count = count + 1;
            let at = match &entry.song_id {
                Some(x) => store.find_song(x.as_str()),
                None => None,
            };
            match at {
                Some(j) => {
                    assert(store@.songs[j as int] == store.songs@[j as int]@);
                    match store.songs[j].duration {
                        Some(d) => {
                            total = total + d as i128;
                        },
                        None => {},
                    }
                },
                None => {},
            }
        }
        i = i + 1;
    }
    if count <= i64::MAX as i128 && total >= i64::MIN as i128 && total <= i64::MAX as i128 {
        Some((count as i64, total as i64))
    } else {
        None
    }
}

/// The playlists in the order in which they were made, each with the number of
/// its songs and their total duration.
///
/// Refused with `Overflow` where the number or the total of a playlist does not
/// fit 64 bits.
pub fn playlists_get_all(store: &SetlistStore) -> (r: Result<Vec<PlaylistWithStats>, StoreError>)
    ensures
        r is Ok <==> (forall|i: int|
            0 <= i < store@.playlists.len() ==> stats_fit(store@, #[trigger] store@.playlists[i])),
        r matches Ok(list) ==> list.deep_view() == arranged_by(
            all_stats(store@),
            playlist_keys(store@),
        ),
        r matches Err(e) ==> e == StoreError::Overflow,
{
    let mut stats: Vec<PlaylistWithStats> = Vec::new();
    let mut i: usize = 0;
    while i < store.playlists.len()
        invariant
            i <= store@.playlists.len(),
            stats@.len() == i,
            forall|j: int| 0 <= j < i ==> (#[trigger] stats@[j])@ == stats_of(
                store@,
                store@.playlists[j],
            ),
            forall|j: int| 0 <= j < i ==> stats_fit(store@, #[trigger] store@.playlists[j]),
        decreases store@.playlists.len() - i,
    {
        let p = &store.playlists[i];
        assert(store@.playlists[i as int] == p@);
        match statistics(store, p.id.as_str()) {
            Some((count, total)) => {
                stats.push(
                    PlaylistWithStats {
                        id: copy_text(&p.id),
                        name: copy_text(&p.name),
                        description: copy_opt_text(&p.description),
                        created_at: copy_text(&p.created_at),
                        song_count: count,
                        total_duration: total,
                    },
                );
            },
            None => {
                assert(!stats_fit(store@, store@.playlists[i as int]));
                return Err(StoreError::Overflow);
            },
        }
        i = i + 1;
    }
    assert(stats.deep_view() =~= all_stats(store@));
    assert(listing_keys(stats@) =~= playlist_keys(store@));
    Ok(listed(&stats))
}

/// The store with one more playlist at the end.
pub open spec fn with_playlist(s: SetlistView, p: PlaylistValue) -> SetlistView {
    SetlistView { playlists: s.playlists.push(p), ..s }
}

/// Adds the playlist that `payload` describes under the id `id`, made at
/// `created_at`.
///
/// Refused with `DuplicateId` where the store already holds a playlist with the id.
pub fn playlists_insert(
    store: &mut SetlistStore,
    id: String,
    created_at: String,
    payload: CreatePlaylistPayload,
) -> (r: Result<Playlist, StoreError>)
    ensures
        playlist_ids(old(store)@).contains(id@) ==> refused(r, StoreError::DuplicateId),
        !playlist_ids(old(store)@).contains(id@) ==> r is Ok,
        r matches Ok(p) ==> p@ == playlist_of(id@, created_at@, payload) && final(store)@
            == with_playlist(old(store)@, p@),
        r is Err ==> final(store)@ == old(store)@,
{
    proof {
        lemma_setlist_idents(store);
        lemma_find_id(playlist_ids(store@), id@);
    }
    if position_of(&store.playlists, id.as_str()).is_some() {
        return Err(StoreError::DuplicateId);
    }
    let playlist = Playlist::from_payload(id, created_at, payload);
    let out = playlist.copy();
    store.playlists.push(playlist);
    assert(store@.playlists =~= old(store)@.playlists.push(out@));
    Ok(out)
}

/// Adds the playlist that `payload` describes under a fresh id, made now.
///
/// Refused with `DuplicateId` where the fresh id is that of a playlist of the store.
///
/// Which fresh id is drawn is not known beforehand. Where no id of that kind in
/// the store has the shape of a fresh id, none can be taken, and the call
/// succeeds unless it is refused for what the payload names.
pub fn playlists_create(store: &mut SetlistStore, payload: CreatePlaylistPayload) -> (r: Result<
    Playlist,
    StoreError,
>)
    ensures
        none_fresh(playlist_ids(old(store)@)) ==> r is Ok,
        r matches Err(e) ==> e == StoreError::DuplicateId,
        r matches Ok(p) ==> is_hyphenated_id(p@.id) && !playlist_ids(old(store)@).contains(p@.id)
            && p@ == playlist_of(p@.id, p@.created_at, payload) && final(store)@ == with_playlist(
            old(store)@,
            p@,
        ),
        r is Err ==> final(store)@ == old(store)@,
{
    playlists_insert(store, fresh_id(), time_stamp(), payload)
}

/// The playlist `old` with the name and the description of `new`.
pub open spec fn renamed(old: PlaylistValue, new: PlaylistValue) -> PlaylistValue {
    PlaylistValue { name: new.name, description: new.description, ..old }
}

/// The store with the playlist at position `i` renamed after `p`.
pub open spec fn with_playlist_renamed(s: SetlistView, i: int, p: PlaylistValue) -> SetlistView {
    SetlistView { playlists: s.playlists.update(i, renamed(s.playlists[i], p)), ..s }
}

/// Gives the playlist that has the id of `playlist` the name and the
/// description of `playlist`; the moment it was made stays. Hands `playlist` back.
///
/// Refused with `NotFound` where the store holds no playlist with the id.
pub fn playlists_update(store: &mut SetlistStore, playlist: Playlist) -> (r: Result<
    Playlist,
    StoreError,
>)
    ensures
        find_id(playlist_ids(old(store)@), playlist@.id) is None ==> refused(
            r,
            StoreError::NotFound,
        ),
        find_id(playlist_ids(old(store)@), playlist@.id) is Some ==> r is Ok,
        r matches Ok(p) ==> p@ == playlist@ && final(store)@ == with_playlist_renamed(
            old(store)@,
            find_id(playlist_ids(old(store)@), playlist@.id)->0,
            playlist@,
        ),
        r is Err ==> final(store)@ == old(store)@,
{
    proof {
        lemma_setlist_idents(store);
    }
    match position_of(&store.playlists, playlist.id.as_str()) {
        Some(i) => {
            let ghost was = store.playlists@[i as int]@;
            assert(store@.playlists[i as int] == was);
            store.playlists[i].name = copy_text(&playlist.name);
            store.playlists[i].description = copy_opt_text(&playlist.description);
            assert(store@.playlists =~= old(store)@.playlists.update(
                i as int,
                renamed(was, playlist@),
            ));
            Ok(playlist)
        },
        None => Err(StoreError::NotFound),
    }
}

/// The entries among the first `n` that are not entries of the playlist `playlist`.
pub open spec fn entries_without_playlist(
    entries: Seq<PlaylistEntryValue>,
    playlist: Seq<char>,
    n: nat,
) -> Seq<PlaylistEntryValue>
    decreases n,
{
    if n == 0 {
        Seq::empty()
    } else {
        let rest = entries_without_playlist(entries, playlist, (n - 1) as nat);
        if entries[n - 1].playlist_id == playlist {
            rest
        } else {
            rest.push(entries[n - 1])
        }
    }
}

/// The store without the playlist at position `i` and without its entries.
pub open spec fn without_playlist(s: SetlistView, i: int) -> SetlistView {
    SetlistView {
        playlists: s.playlists.remove(i),
        entries: entries_without_playlist(s.entries, s.playlists[i].id, s.entries.len()),
        ..s
    }
}

/// Removes the playlist with the id `id` and its entries.
///
/// Never refused: where the store holds no playlist with the id, nothing changes.
pub fn playlists_delete(store: &mut SetlistStore, id: String) -> (r: Result<(), StoreError>)
    ensures
        r is Ok,
        find_id(playlist_ids(old(store)@), id@) is None ==> final(store)@ == old(store)@,
        find_id(playlist_ids(old(store)@), id@) is Some ==> final(store)@
            == without_playlist(old(store)@, find_id(playlist_ids(old(store)@), id@)->0),
{
    proof {
        lemma_setlist_idents(store);
        lemma_find_id(playlist_ids(store@), id@);
    }
    match position_of(&store.playlists, id.as_str()) {
        None => Ok(()),
        Some(i) => {
            let ghost before = store@;
            let mut kept: Vec<PlaylistEntry> = Vec::new();
            let mut k: usize = 0;
            assert(kept.deep_view() =~= entries_without_playlist(before.entries, id@, 0));
            while k < store.entries.len()
                invariant
                    k <= store@.entries.len(),
                    store@ == before,
                    kept.deep_view() == entries_without_playlist(before.entries, id@, k as nat),
                decreases store@.entries.len() - k,
            {
                let ghost had = kept.deep_view();
                let entry = &store.entries[k];
                assert(store@.entries[k as int] == entry@);
                if !is_same_text(entry.playlist_id.as_str(), id.as_str()) {
                    kept.push(entry.copy());
                    assert(kept.deep_view() =~= had.push(entry@));
                }
                k = k + 1;
            }
            store.entries = kept;
            store.playlists.remove(i);
            assert(store@.playlists =~= before.playlists.remove(i as int));
            Ok(())
        },
    }
}

} // verus!
