//! The setlist store and the running order of a playlist.
//!
//! The entries of a playlist stand in the order of their positions; entries
//! with the same position keep the order in which they were added.

use vstd::prelude::*;
use crate::ordering::{
    is_ordering, key_views, lemma_ordering_is_ordering, ordering, positions, sort_positions,
    OrderKey, OrderKeyView,
};
use crate::setlist_model::{
    song_view_of, LibrarySong, LibrarySongValue, Playlist, PlaylistEntry, PlaylistEntryValue,
    PlaylistSongView, PlaylistValue, SongViewValue,
};
use crate::store::{as_position, find_id, idents, position_of, Record};
use crate::text::{copy_text, is_same_text};

verus! {

/// The listing key of a playlist: the moment it was made.
pub open spec fn playlist_key(p: PlaylistValue) -> OrderKeyView {
    OrderKeyView { group: 0, order: 0, name: p.created_at, tie: Seq::empty() }
}

/// The listing key of a library song: its title.
pub open spec fn library_song_key(s: LibrarySongValue) -> OrderKeyView {
    OrderKeyView { group: 0, order: 0, name: s.title, tie: Seq::empty() }
}

/// The listing key of an entry: its position.
pub open spec fn entry_key(e: PlaylistEntryValue) -> OrderKeyView {
    OrderKeyView { group: 0, order: e.position, name: Seq::empty(), tie: Seq::empty() }
}

impl Record for Playlist {
    open spec fn ident(&self) -> Seq<char> {
        self.id@
    }

    open spec fn listing_key(&self) -> OrderKeyView {
        playlist_key(self@)
    }

    fn id_text(&self) -> (r: &String) {
        &self.id
    }

    fn order_key(&self) -> (r: OrderKey) {
        OrderKey { group: 0, order: 0, name: copy_text(&self.created_at), tie: String::new() }
    }

    fn duplicate(&self) -> (r: Self) {
        self.copy()
    }
}

impl Record for LibrarySong {
    open spec fn ident(&self) -> Seq<char> {
        self.id@
    }

    open spec fn listing_key(&self) -> OrderKeyView {
        library_song_key(self@)
    }

    fn id_text(&self) -> (r: &String) {
        &self.id
    }

    fn order_key(&self) -> (r: OrderKey) {
        OrderKey { group: 0, order: 0, name: copy_text(&self.title), tie: String::new() }
    }

    fn duplicate(&self) -> (r: Self) {
        self.copy()
    }
}

impl Record for PlaylistEntry {
    open spec fn ident(&self) -> Seq<char> {
        self.id@
    }

    open spec fn listing_key(&self) -> OrderKeyView {
        entry_key(self@)
    }

    fn id_text(&self) -> (r: &String) {
        &self.id
    }

    fn order_key(&self) -> (r: OrderKey) {
        OrderKey { group: 0, order: self.position, name: String::new(), tie: String::new() }
    }

    fn duplicate(&self) -> (r: Self) {
        self.copy()
    }
}

/// The playlists, the song library, and the entries of all playlists.
#[derive(Clone, Debug, PartialEq, Eq)]
pub struct SetlistStore {
    pub playlists: Vec<Playlist>,
    pub songs: Vec<LibrarySong>,
    pub entries: Vec<PlaylistEntry>,
}

/// Mathematical value of a [`SetlistStore`].
pub struct SetlistView {
    pub playlists: Seq<PlaylistValue>,
    pub songs: Seq<LibrarySongValue>,
    pub entries: Seq<PlaylistEntryValue>,
}

impl View for SetlistStore {
    type V = SetlistView;

    open spec fn view(&self) -> SetlistView {
        SetlistView {
            playlists: self.playlists.deep_view(),
            songs: self.songs.deep_view(),
            entries: self.entries.deep_view(),
        }
    }
}

/// The ids of the playlists, in store order.
pub open spec fn playlist_ids(s: SetlistView) -> Seq<Seq<char>> {
    Seq::new(s.playlists.len(), |i: int| s.playlists[i].id)
}

/// The ids of the library songs, in store order.
pub open spec fn song_ids(s: SetlistView) -> Seq<Seq<char>> {
    Seq::new(s.songs.len(), |i: int| s.songs[i].id)
}

/// The ids of the entries, in store order.
pub open spec fn entry_ids(s: SetlistView) -> Seq<Seq<char>> {
    Seq::new(s.entries.len(), |i: int| s.entries[i].id)
}

/// The ids of the store's lists are the ids of its records.
pub proof fn lemma_setlist_idents(store: &SetlistStore)
    ensures
        idents(store.playlists@) == playlist_ids(store@),
        idents(store.songs@) == song_ids(store@),
        idents(store.entries@) == entry_ids(store@),
{
    assert(idents(store.playlists@) =~= playlist_ids(store@));
    assert(idents(store.songs@) =~= song_ids(store@));
    assert(idents(store.entries@) =~= entry_ids(store@));
}

impl SetlistStore {
    /// A store without records.
    pub fn new() -> (r: SetlistStore)
        ensures
            r@.playlists.len() == 0,
            r@.songs.len() == 0,
            r@.entries.len() == 0,
    {
        SetlistStore { playlists: Vec::new(), songs: Vec::new(), entries: Vec::new() }
    }

    /// Finds the playlist with the id `id`.
    pub fn find_playlist(&self, id: &str) -> (r: Option<usize>)
        ensures
            as_position(r) == find_id(playlist_ids(self@), id@),
            r matches Some(i) ==> i < self@.playlists.len(),
    {
        proof {
            lemma_setlist_idents(self);
        }
        position_of(&self.playlists, id)
    }

    /// Finds the library song with the id `id`.
    pub fn find_song(&self, id: &str) -> (r: Option<usize>)
        ensures
            as_position(r) == find_id(song_ids(self@), id@),
            r matches Some(i) ==> i < self@.songs.len(),
    {
        proof {
            lemma_setlist_idents(self);
        }
        position_of(&self.songs, id)
    }

    /// Finds the entry with the id `id`.
    pub fn find_entry(&self, id: &str) -> (r: Option<usize>)
        ensures
            as_position(r) == find_id(entry_ids(self@), id@),
            r matches Some(i) ==> i < self@.entries.len(),
    {
        proof {
            lemma_setlist_idents(self);
        }
        position_of(&self.entries, id)
    }
}

/// The entries of the playlist `playlist` among the first `n` entries, by their
/// places in the store, in store order.
pub open spec fn picks(s: SetlistView, playlist: Seq<char>, n: nat) -> Seq<int>
    decreases n,
{
    if n == 0 {
        Seq::empty()
    } else {
        let rest = picks(s, playlist, (n - 1) as nat);
        if s.entries[n - 1].playlist_id == playlist {
            rest.push(n - 1)
        } else {
            rest
        }
    }
}

/// The listing keys of the entries at the places `places`.
pub open spec fn pick_keys(s: SetlistView, places: Seq<int>) -> Seq<OrderKeyView> {
    Seq::new(places.len(), |j: int| entry_key(s.entries[places[j]]))
}

/// The running order of the playlist `playlist`: the places of its entries in
/// the store, lowest position first, entries with the same position in the
/// order in which the store holds them.
pub open spec fn running_order(s: SetlistView, playlist: Seq<char>) -> Seq<int> {
    let places = picks(s, playlist, s.entries.len());
    Seq::new(places.len(), |k: int| places[ordering(pick_keys(s, places))[k]])
}

/// The picks are just the places of the playlist's entries, each once, ascending.
pub proof fn lemma_picks(s: SetlistView, playlist: Seq<char>, n: nat)
    requires
        n <= s.entries.len(),
    ensures
        picks(s, playlist, n).len() <= n,
        forall|j: int|
            0 <= j < picks(s, playlist, n).len() ==> 0 <= #[trigger] picks(s, playlist, n)[j] < n
                && s.entries[picks(s, playlist, n)[j]].playlist_id == playlist,
        forall|i: int|
            0 <= i < n && s.entries[i].playlist_id == playlist ==> #[trigger] picks(
                s,
                playlist,
                n,
            ).contains(i),
        forall|a: int, b: int|
            0 <= a < b < picks(s, playlist, n).len() ==> #[trigger] picks(s, playlist, n)[a]
                < #[trigger] picks(s, playlist, n)[b],
    decreases n,
{
    if n > 0 {
        let rest = picks(s, playlist, (n - 1) as nat);
        let all = picks(s, playlist, n);
        lemma_picks(s, playlist, (n - 1) as nat);
        assert forall|i: int|
            0 <= i < n && s.entries[i].playlist_id == playlist implies #[trigger] all.contains(
            i,
        ) by {
            if i < n - 1 {
                assert(rest.contains(i));
                let j = choose|j: int| 0 <= j < rest.len() && rest[j] == i;
                assert(all[j] == i);
            } else {
                assert(all[all.len() - 1] == i);
            }
        }
    }
}

/// The running order holds just the places of the playlist's entries, each once.
pub proof fn lemma_running_order(s: SetlistView, playlist: Seq<char>)
    ensures
        running_order(s, playlist).len() == picks(s, playlist, s.entries.len()).len(),
        running_order(s, playlist).len() <= s.entries.len(),
        forall|k: int|
            0 <= k < running_order(s, playlist).len() ==> 0 <= #[trigger] running_order(
                s,
                playlist,
            )[k] < s.entries.len() && s.entries[running_order(s, playlist)[k]].playlist_id
                == playlist,
        forall|i: int|
            0 <= i < s.entries.len() && s.entries[i].playlist_id == playlist
                ==> #[trigger] running_order(s, playlist).contains(i),
        running_order(s, playlist).no_duplicates(),
{
    let places = picks(s, playlist, s.entries.len());
    let keys = pick_keys(s, places);
    let p = ordering(keys);
    let order = running_order(s, playlist);
    lemma_picks(s, playlist, s.entries.len());
    lemma_ordering_is_ordering(keys);
    assert forall|k: int| 0 <= k < order.len() implies 0 <= #[trigger] order[k] < s.entries.len()
        && s.entries[order[k]].playlist_id == playlist by {
        assert(p.contains(p[k]));
    }
    assert forall|i: int|
        0 <= i < s.entries.len() && s.entries[i].playlist_id == playlist implies #[trigger] order.contains(
        i,
    ) by {
        assert(places.contains(i));
        let j = choose|j: int| 0 <= j < places.len() && places[j] == i;
        assert(p.contains(j));
        let k = choose|k: int| 0 <= k < p.len() && p[k] == j;
        assert(order[k] == i);
    }
    assert forall|a: int, b: int| 0 <= a < order.len() && 0 <= b < order.len() && a != b implies order[a]
        != order[b] by {
        assert(p.contains(p[a]));
        assert(p.contains(p[b]));
        if a < b {
            assert(crate::ordering::comes_before(keys, p[a], p[b]));
        } else {
            assert(crate::ordering::comes_before(keys, p[b], p[a]));
        }
        if p[a] < p[b] {
            assert(places[p[a]] < places[p[b]]);
        } else {
            assert(places[p[b]] < places[p[a]]);
        }
    }
}

/// The running order of the playlist `playlist`, as places in the store.
pub fn playlist_order(store: &SetlistStore, playlist: &str) -> (order: Vec<usize>)
    ensures
        positions(order@) == running_order(store@, playlist@),
        forall|k: int| 0 <= k < order@.len() ==> #[trigger] order@[k] < store@.entries.len(),
{
    let mut places: Vec<usize> = Vec::new();
    let mut keys: Vec<OrderKey> = Vec::new();
    let mut i: usize = 0;
    assert(positions(places@) =~= picks(store@, playlist@, 0));
    while i < store.entries.len()
        invariant
            i <= store@.entries.len(),
            places@.len() == keys@.len(),
            positions(places@) == picks(store@, playlist@, i as nat),
            forall|j: int|
                0 <= j < keys@.len() ==> (#[trigger] keys@[j])@ == entry_key(
                    store@.entries[places@[j] as int],
                ),
        decreases store@.entries.len() - i,
    {
        let ghost before = positions(places@);
        assert(store@.entries[i as int] == store.entries@[i as int]@);
        if is_same_text(store.entries[i].playlist_id.as_str(), playlist) {
            places.push(i);
            keys.push(store.entries[i].order_key());
            assert(positions(places@) =~= before.push(i as int));
        } else {
            assert(positions(places@) =~= before);
        }
        i = i + 1;
    }
    let ghost ps = picks(store@, playlist@, store@.entries.len());
    proof {
        assert(positions(places@).len() == places@.len());
        assert forall|j: int| 0 <= j < keys@.len() implies key_views(keys@)[j] == pick_keys(
            store@,
            ps,
        )[j] by {
            assert(positions(places@)[j] == places@[j] as int);
        }
        assert(key_views(keys@) =~= pick_keys(store@, ps));
        lemma_ordering_is_ordering(pick_keys(store@, ps));
        lemma_picks(store@, playlist@, store@.entries.len());
    }
    let sorted = sort_positions(&keys);
    let ghost p = ordering(pick_keys(store@, ps));
    let mut order: Vec<usize> = Vec::new();
    let mut k: usize = 0;
    assert(positions(sorted@).len() == sorted@.len());
    while k < sorted.len()
        invariant
            k <= sorted@.len(),
            sorted@.len() == places@.len(),
            positions(sorted@) == p,
            positions(places@) == ps,
            ps.len() == places@.len(),
            is_ordering(p, pick_keys(store@, ps), ps.len() as int),
            forall|j: int| 0 <= j < ps.len() ==> 0 <= #[trigger] ps[j] < store@.entries.len(),
            order@.len() == k,
            forall|j: int| 0 <= j < k ==> (#[trigger] order@[j]) as int == ps[p[j]],
            forall|j: int| 0 <= j < k ==> #[trigger] order@[j] < store@.entries.len(),
        decreases sorted@.len() - k,
    {
        let j = sorted[k];
        proof {
            assert(positions(sorted@)[k as int] == j as int);
            assert(p.contains(p[k as int]));
            assert(positions(places@)[j as int] == places@[j as int] as int);
        }
        order.push(places[j]);
        k = k + 1;
    }
    assert(positions(order@) =~= running_order(store@, playlist@));
    order
}

/// The library song that an entry names, if the library holds it.
pub open spec fn song_of(s: SetlistView, song_id: Option<Seq<char>>) -> Option<LibrarySongValue> {
    match song_id {
        Some(x) => match find_id(song_ids(s), x) {
            Some(i) => Some(s.songs[i]),
            None => None,
        },
        None => None,
    }
}

/// The view of the entry at place `i` of the store.
pub open spec fn merged_at(s: SetlistView, i: int) -> SongViewValue {
    song_view_of(s.entries[i], song_of(s, s.entries[i].song_id))
}

/// The views of the entries of the playlist `playlist`, in running order.
pub open spec fn playlist_views(s: SetlistView, playlist: Seq<char>) -> Seq<SongViewValue> {
    Seq::new(
        running_order(s, playlist).len(),
        |k: int| merged_at(s, running_order(s, playlist)[k]),
    )
}

/// The view of the entry at place `i` of the store.
pub fn merged_view(store: &SetlistStore, i: usize) -> (r: PlaylistSongView)
    requires
        i < store@.entries.len(),
    ensures
        r@ == merged_at(store@, i as int),
{
    let entry = &store.entries[i];
    assert(store@.entries[i as int] == entry@);
    match &entry.song_id {
        Some(x) => match store.find_song(x.as_str()) {
            Some(j) => {
                assert(store@.songs[j as int] == store.songs@[j as int]@);
                PlaylistSongView::of_entry(entry, Some(&store.songs[j]))
            },
            None => PlaylistSongView::of_entry(entry, None),
        },
        None => PlaylistSongView::of_entry(entry, None),
    }
}

/// The entries of the playlist `playlist_id` with what the library says of
/// their songs, in running order.
pub fn songs_get_by_playlist(store: &SetlistStore, playlist_id: String) -> (r: Vec<
    PlaylistSongView,
>)
    ensures
        r.deep_view() == playlist_views(store@, playlist_id@),
{
    let order = playlist_order(store, playlist_id.as_str());
    let ghost wanted = running_order(store@, playlist_id@);
    assert(positions(order@).len() == order@.len());
    let mut r: Vec<PlaylistSongView> = Vec::new();
    let mut k: usize = 0;
    while k < order.len()
        invariant
            k <= order@.len(),
            positions(order@) == wanted,
            forall|j: int| 0 <= j < order@.len() ==> #[trigger] order@[j] < store@.entries.len(),
            r@.len() == k,
            forall|j: int| 0 <= j < k ==> (#[trigger] r@[j])@ == merged_at(store@, wanted[j]),
        decreases order@.len() - k,
    {
        assert(positions(order@)[k as int] == order@[k as int] as int);
        r.push(merged_view(store, order[k]));
        k = k + 1;
    }
    assert(r.deep_view() =~= playlist_views(store@, playlist_id@));
    r
}

/// The entries after the first `n` of the places in `order` were numbered from
/// 0: the entry at place `order[k]` has the position `k`.
pub open spec fn renumbered(
    entries: Seq<PlaylistEntryValue>,
    order: Seq<int>,
    n: nat,
) -> Seq<PlaylistEntryValue>
    decreases n,
{
    if n == 0 {
        entries
    } else {
        let prev = renumbered(entries, order, (n - 1) as nat);
        prev.update(
            order[n - 1],
            PlaylistEntryValue { position: (n - 1) as i64, ..prev[order[n - 1]] },
        )
    }
}

/// The store after the entries of the playlist `playlist` were numbered from 0
/// in their running order.
pub open spec fn renormalized(s: SetlistView, playlist: Seq<char>) -> SetlistView {
    SetlistView {
        entries: renumbered(
            s.entries,
            running_order(s, playlist),
            running_order(s, playlist).len(),
        ),
        ..s
    }
}

/// Numbering changes positions only, and only at the places numbered: the entry
/// at place `order[k]` gets the position `k`, every other entry stays.
pub proof fn lemma_renumbered(entries: Seq<PlaylistEntryValue>, order: Seq<int>, n: nat)
    requires
        n <= order.len(),
        n <= i64::MAX,
        order.no_duplicates(),
        forall|k: int| 0 <= k < order.len() ==> 0 <= #[trigger] order[k] < entries.len(),
    ensures
        renumbered(entries, order, n).len() == entries.len(),
        forall|k: int|
            0 <= k < n ==> #[trigger] renumbered(entries, order, n)[order[k]] == (
            PlaylistEntryValue { position: k as i64, ..entries[order[k]] }),
        forall|i: int|
            0 <= i < entries.len() && !order.take(n as int).contains(i) ==> #[trigger] renumbered(
                entries,
                order,
                n,
            )[i] == entries[i],
    decreases n,
{
    if n > 0 {
        let prev = renumbered(entries, order, (n - 1) as nat);
        let all = renumbered(entries, order, n);
        lemma_renumbered(entries, order, (n - 1) as nat);
        let head = order.take(n - 1);
        let last = order[n - 1];
        assert(!head.contains(last)) by {
            if head.contains(last) {
                let j = choose|j: int| 0 <= j < head.len() && #[trigger] head[j] == last;
                assert(order[j] == order[n - 1]);
            }
        }
        assert forall|k: int| 0 <= k < n implies #[trigger] all[order[k]] == (PlaylistEntryValue {
            position: k as i64,
            ..entries[order[k]]
        }) by {
            if k < n - 1 {
                assert(order[k] != order[n - 1]);
                assert(prev[order[k]] == (PlaylistEntryValue {
                    position: k as i64,
                    ..entries[order[k]]
                }));
            }
        }
        assert forall|i: int|
            0 <= i < entries.len() && !order.take(n as int).contains(i) implies #[trigger] all[i]
            == entries[i] by {
            let whole = order.take(n as int);
            assert(whole[n - 1] == order[n - 1]);
            assert(i != order[n - 1]);
            if head.contains(i) {
                let j = choose|j: int| 0 <= j < head.len() && #[trigger] head[j] == i;
                assert(whole[j] == i);
            }
        }
    }
}

/// Numbers the entries of the playlist `playlist_id` from 0 in their running
/// order, closing the gaps that removed entries left.
pub fn renormalize_positions(store: &mut SetlistStore, playlist_id: &str)
    requires
        old(store)@.entries.len() <= i64::MAX,
    ensures
        final(store)@ == renormalized(old(store)@, playlist_id@),
{
    let order = playlist_order(store, playlist_id);
    let ghost before = store@;
    let ghost wanted = running_order(before, playlist_id@);
    proof {
        lemma_running_order(before, playlist_id@);
        assert(positions(order@).len() == order@.len());
    }
    let mut k: usize = 0;
    while k < order.len()
        invariant
            k <= order@.len(),
            positions(order@) == wanted,
            wanted.len() <= i64::MAX,
            forall|j: int| 0 <= j < order@.len() ==> #[trigger] order@[j] < before.entries.len(),
            store@.playlists == before.playlists,
            store@.songs == before.songs,
            store@.entries == renumbered(before.entries, wanted, k as nat),
            store@.entries.len() == before.entries.len(),
        decreases order@.len() - k,
    {
        let i = order[k];
        let ghost prev = store.entries@;
        let ghost mid = store@;
        proof {
            assert(positions(order@)[k as int] == i as int);
            assert(mid.entries[i as int] == prev[i as int]@);
        }
        store.entries[i].position = k as i64;
        proof {
            let now = store.entries@;
            assert(forall|j: int| 0 <= j < prev.len() && j != i ==> now[j] == prev[j]);
            assert forall|j: int| 0 <= j < prev.len() && j != i implies #[trigger] store@.entries[j]
                == mid.entries[j] by {
                assert(store@.entries[j] == now[j]@);
                assert(mid.entries[j] == prev[j]@);
            }
            assert(store@.entries[i as int] == now[i as int]@);
            assert(store@.entries =~= renumbered(before.entries, wanted, (k + 1) as nat));
        }
        k = k + 1;
    }
}

} // verus!
