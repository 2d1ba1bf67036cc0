use blackout_orm::library::{
    library_add_to_playlist, library_create, library_delete, library_get_all, library_get_usage,
    library_insert, library_put_in_playlist, library_update,
};
use blackout_orm::playlists::{
    playlists_create, playlists_delete, playlists_get_all, playlists_insert, playlists_update,
};
use blackout_orm::setlist_model::{
    AddToPlaylistPayload, CreateLibrarySongPayload, CreatePlaylistPayload, CreateSongPayload,
    EntryKind, LibrarySong, Playlist, PlaylistEntry, PlaylistSongView, ReorderPayload,
    UpdateSongPayload,
};
use blackout_orm::setlists::{
    merged_view, playlist_order, renormalize_positions, songs_get_by_playlist, SetlistStore,
};
use blackout_orm::songs::{
    find_last, given_or_empty, songs_create, songs_delete, songs_insert, songs_reorder,
    songs_update,
};
use blackout_orm::store::StoreError;

fn text(s: &str) -> String {
    s.to_string()
}

fn song_payload(title: &str, artist: &str, duration: Option<i64>) -> CreateLibrarySongPayload {
    CreateLibrarySongPayload {
        title: text(title),
        artist: text(artist),
        album: None,
        duration,
        tempo: Some(120),
        style: None,
        notes: None,
    }
}

fn playlist_payload(name: &str) -> CreatePlaylistPayload {
    CreatePlaylistPayload { name: text(name), description: Some(text("set")) }
}

fn add(playlist: &str, song: &str) -> AddToPlaylistPayload {
    AddToPlaylistPayload {
        playlist_id: text(playlist),
        song_id: text(song),
        setlist_name: None,
        join_with_next: None,
    }
}

fn event(playlist: &str, title: Option<&str>) -> CreateSongPayload {
    CreateSongPayload {
        playlist_id: text(playlist),
        song_id: None,
        entry_type: Some(text("event")),
        title: title.map(text),
        artist: None,
        album: None,
        duration: None,
        tempo: None,
        style: None,
        notes: None,
        setlist_name: Some(text("ignored")),
        join_with_next: Some(true),
    }
}

fn new_song(playlist: &str, title: &str, song_id: Option<&str>) -> CreateSongPayload {
    CreateSongPayload {
        playlist_id: text(playlist),
        song_id: song_id.map(text),
        entry_type: None,
        title: Some(text(title)),
        artist: Some(text("Band")),
        album: None,
        duration: Some(200),
        tempo: None,
        style: None,
        notes: None,
        setlist_name: Some(text("Encore")),
        join_with_next: Some(true),
    }
}

fn stocked() -> SetlistStore {
    let mut store = SetlistStore::new();
    playlists_insert(&mut store, text("p-1"), text("2024-01-02"), playlist_payload("Club"))
        .unwrap();
    playlists_insert(&mut store, text("p-2"), text("2024-01-01"), playlist_payload("Festival"))
        .unwrap();
    library_insert(&mut store, text("s-1"), song_payload("Zombie", "C", Some(300))).unwrap();
    library_insert(&mut store, text("s-2"), song_payload("Alive", "P", Some(200))).unwrap();
    library_insert(&mut store, text("s-3"), song_payload("Mute", "N", None)).unwrap();
    library_put_in_playlist(&mut store, text("e-1"), add("p-1", "s-1")).unwrap();
    library_put_in_playlist(&mut store, text("e-2"), add("p-2", "s-1")).unwrap();
    library_put_in_playlist(&mut store, text("e-3"), add("p-1", "s-2")).unwrap();
    library_put_in_playlist(&mut store, text("e-4"), add("p-1", "s-3")).unwrap();
    library_put_in_playlist(&mut store, text("e-5"), add("p-2", "s-2")).unwrap();
    store
}

fn positions(store: &SetlistStore) -> Vec<(String, i64)> {
    store.entries.iter().map(|e| (e.id.clone(), e.position)).collect()
}

fn ids(views: &[PlaylistSongView]) -> Vec<String> {
    views.iter().map(|v| v.id.clone()).collect()
}

#[test]
fn new_entries_go_to_the_end_of_their_playlist() {
    let store = stocked();
    assert_eq!(
        positions(&store),
        vec![
            (text("e-1"), 0),
            (text("e-2"), 0),
            (text("e-3"), 1),
            (text("e-4"), 2),
            (text("e-5"), 1)
        ]
    );
    assert_eq!(playlist_order(&store, "p-1"), vec![0, 2, 3]);
    assert_eq!(playlist_order(&store, "p-2"), vec![1, 4]);
    assert_eq!(playlist_order(&store, "p-9"), Vec::<usize>::new());
}

#[test]
fn adding_to_a_playlist_hands_back_the_merged_view() {
    let mut store = stocked();
    let mut payload = add("p-2", "s-3");
    payload.setlist_name = Some(text("Opener"));
    payload.join_with_next = Some(true);
    let view = library_put_in_playlist(&mut store, text("e-6"), payload).unwrap();
    assert_eq!(
        view,
        PlaylistSongView {
            id: text("e-6"),
            playlist_id: text("p-2"),
            song_id: Some(text("s-3")),
            position: 2,
            entry_type: Some(text("song")),
            title: text("Mute"),
            setlist_name: Some(text("Opener")),
            join_with_next: true,
            artist: text("N"),
            album: None,
            duration: None,
            tempo: Some(120),
            style: None,
            notes: None,
        }
    );
    assert_eq!(
        store.entries[5],
        PlaylistEntry {
            id: text("e-6"),
            playlist_id: text("p-2"),
            song_id: Some(text("s-3")),
            position: 2,
            kind: EntryKind::Song,
            title: None,
            setlist_name: Some(text("Opener")),
            join_with_next: true,
        }
    );
    assert_eq!(merged_view(&store, 5), view);
}

#[test]
fn adding_to_a_playlist_is_refused_for_unknown_or_taken_ids() {
    let mut store = stocked();
    let untouched = store.clone();
    assert_eq!(
        library_put_in_playlist(&mut store, text("e-9"), add("p-1", "s-9")),
        Err(StoreError::NotFound)
    );
    assert_eq!(
        library_put_in_playlist(&mut store, text("e-9"), add("p-9", "s-1")),
        Err(StoreError::InvalidReference)
    );
    assert_eq!(
        library_put_in_playlist(&mut store, text("e-9"), add("p-9", "s-9")),
        Err(StoreError::NotFound)
    );
    assert_eq!(
        library_put_in_playlist(&mut store, text("e-1"), add("p-1", "s-1")),
        Err(StoreError::DuplicateId)
    );
    assert_eq!(library_add_to_playlist(&mut store, add("p-1", "s-9")), Err(StoreError::NotFound));
    assert_eq!(store, untouched);
    let view = library_add_to_playlist(&mut store, add("p-1", "s-1")).unwrap();
    assert_eq!(view.id.len(), 36);
    assert_eq!(view.position, 3);
}

#[test]
fn library_lists_by_title_and_changes_by_id() {
    let mut store = stocked();
    let titles: Vec<String> = library_get_all(&store).into_iter().map(|s| s.title).collect();
    assert_eq!(titles, vec![text("Alive"), text("Mute"), text("Zombie")]);
    let created = library_create(&mut store, song_payload("New", "X", None)).unwrap();
    assert_eq!(created.id.len(), 36);
    assert_eq!(store.songs[3], created);
    assert_eq!(
        library_insert(&mut store, text("s-1"), song_payload("Dup", "X", None)),
        Err(StoreError::DuplicateId)
    );
    let changed = LibrarySong {
        id: text("s-2"),
        title: text("Alive!"),
        artist: text("PJ"),
        album: Some(text("Ten")),
        duration: Some(341),
        tempo: None,
        style: None,
        notes: None,
    };
    assert_eq!(library_update(&mut store, changed.clone()), Ok(changed.clone()));
    assert_eq!(store.songs[1], changed);
    let mut ghost = changed;
    ghost.id = text("s-9");
    assert_eq!(library_update(&mut store, ghost), Err(StoreError::NotFound));
}

#[test]
fn usage_names_each_playlist_once() {
    let mut store = stocked();
    library_put_in_playlist(&mut store, text("e-6"), add("p-1", "s-1")).unwrap();
    assert_eq!(library_get_usage(&store, text("s-1")), vec![text("p-1"), text("p-2")]);
    assert_eq!(library_get_usage(&store, text("s-3")), vec![text("p-1")]);
    assert_eq!(library_get_usage(&store, text("s-9")), Vec::<String>::new());
}

#[test]
fn removing_a_song_closes_the_gaps_it_leaves() {
    let mut store = stocked();
    assert_eq!(library_delete(&mut store, text("s-1")), Ok(()));
    assert_eq!(store.songs.len(), 2);
    assert_eq!(positions(&store), vec![(text("e-3"), 0), (text("e-4"), 1), (text("e-5"), 0)]);
    let untouched = store.clone();
    assert_eq!(library_delete(&mut store, text("s-1")), Ok(()));
    assert_eq!(store, untouched);
}

#[test]
fn renormalizing_numbers_from_zero_in_running_order() {
    let mut store = stocked();
    store.entries[0].position = 7;
    store.entries[2].position = 3;
    store.entries[3].position = 3;
    store.entries[4].position = 40;
    renormalize_positions(&mut store, "p-1");
    assert_eq!(
        positions(&store),
        vec![
            (text("e-1"), 2),
            (text("e-2"), 0),
            (text("e-3"), 0),
            (text("e-4"), 1),
            (text("e-5"), 40)
        ]
    );
    let once = store.clone();
    renormalize_positions(&mut store, "p-1");
    assert_eq!(store, once);
    renormalize_positions(&mut store, "p-9");
    assert_eq!(store, once);
}

#[test]
fn playlist_views_come_in_running_order() {
    let mut store = stocked();
    store.entries[0].position = 5;
    let views = songs_get_by_playlist(&store, text("p-1"));
    assert_eq!(ids(&views), vec![text("e-3"), text("e-4"), text("e-1")]);
    assert_eq!(views[0].title, text("Alive"));
    assert_eq!(views[2].duration, Some(300));
    assert_eq!(songs_get_by_playlist(&store, text("p-9")), Vec::<PlaylistSongView>::new());
}

#[test]
fn playlists_list_by_age_with_their_statistics() {
    let mut store = stocked();
    songs_insert(&mut store, text("e-6"), text("unused"), event("p-1", Some("Break"))).unwrap();
    let stats = playlists_get_all(&store).unwrap();
    assert_eq!(stats.len(), 2);
    assert_eq!(stats[0].id, text("p-2"));
    assert_eq!(stats[0].name, text("Festival"));
    assert_eq!(stats[0].song_count, 2);
    assert_eq!(stats[0].total_duration, 500);
    assert_eq!(stats[1].id, text("p-1"));
    assert_eq!(stats[1].song_count, 3);
    assert_eq!(stats[1].total_duration, 500);
    assert_eq!(stats[1].created_at, text("2024-01-02"));
    assert_eq!(stats[1].description, Some(text("set")));
}

#[test]
fn statistics_that_do_not_fit_are_refused() {
    let mut store = stocked();
    store.songs[0].duration = Some(i64::MAX);
    store.songs[1].duration = Some(1);
    assert_eq!(playlists_get_all(&store), Err(StoreError::Overflow));
    store.songs[1].duration = Some(-1);
    let stats = playlists_get_all(&store).unwrap();
    assert_eq!(stats[1].total_duration, i64::MAX - 1);
}

#[test]
fn playlists_are_made_renamed_and_removed() {
    let mut store = stocked();
    let made = playlists_create(&mut store, playlist_payload("Tour")).unwrap();
    assert_eq!(made.id.len(), 36);
    assert!(!made.created_at.is_empty());
    assert_eq!(store.playlists[2], made);
    assert_eq!(
        playlists_insert(&mut store, text("p-1"), text("now"), playlist_payload("Dup")),
        Err(StoreError::DuplicateId)
    );
    let renamed = Playlist {
        id: text("p-1"),
        name: text("Club Night"),
        description: None,
        created_at: text("forged"),
    };
    assert_eq!(playlists_update(&mut store, renamed.clone()), Ok(renamed));
    assert_eq!(
        store.playlists[0],
        Playlist {
            id: text("p-1"),
            name: text("Club Night"),
            description: None,
            created_at: text("2024-01-02"),
        }
    );
    let ghost = Playlist {
        id: text("p-9"),
        name: text("x"),
        description: None,
        created_at: text("x"),
    };
    assert_eq!(playlists_update(&mut store, ghost), Err(StoreError::NotFound));
    assert_eq!(playlists_delete(&mut store, text("p-1")), Ok(()));
    assert_eq!(store.playlists.len(), 2);
    assert_eq!(positions(&store), vec![(text("e-2"), 0), (text("e-5"), 1)]);
    let untouched = store.clone();
    assert_eq!(playlists_delete(&mut store, text("p-1")), Ok(()));
    assert_eq!(store, untouched);
}

#[test]
fn events_keep_their_own_title() {
    let mut store = stocked();
    let view = songs_insert(&mut store, text("e-6"), text("unused"), event("p-2", Some("Break")))
        .unwrap();
    assert_eq!(view.entry_type, Some(text("event")));
    assert_eq!(view.title, text("Break"));
    assert_eq!(view.artist, text(""));
    assert_eq!(view.position, 2);
    assert_eq!(view.song_id, None);
    assert_eq!(view.setlist_name, None);
    assert_eq!(view.join_with_next, false);
    assert_eq!(store.songs.len(), 3);
    let untitled = songs_insert(&mut store, text("e-7"), text("unused"), event("p-2", None))
        .unwrap();
    assert_eq!(untitled.title, text(""));
    assert_eq!(store.entries[6].title, Some(text("")));
}

#[test]
fn new_songs_enter_the_library_on_the_way() {
    let mut store = stocked();
    let view = songs_insert(&mut store, text("e-6"), text("s-9"), new_song("p-2", "Fresh", None))
        .unwrap();
    assert_eq!(store.songs.len(), 4);
    assert_eq!(store.songs[3].id, text("s-9"));
    assert_eq!(store.songs[3].title, text("Fresh"));
    assert_eq!(store.songs[3].artist, text("Band"));
    assert_eq!(view.song_id, Some(text("s-9")));
    assert_eq!(view.title, text("Fresh"));
    assert_eq!(view.duration, Some(200));
    assert_eq!(view.setlist_name, Some(text("Encore")));
    assert_eq!(view.join_with_next, true);
    assert_eq!(view.position, 2);

    let known =
        songs_insert(&mut store, text("e-7"), text("s-10"), new_song("p-2", "Ignored", Some("s-2")))
            .unwrap();
    assert_eq!(store.songs.len(), 4);
    assert_eq!(known.title, text("Alive"));
    assert_eq!(known.position, 3);

    let made = songs_create(&mut store, new_song("p-1", "Another", None)).unwrap();
    assert_eq!(made.id.len(), 36);
    assert_eq!(made.song_id.clone().unwrap().len(), 36);
    assert_ne!(Some(made.id.clone()), made.song_id);
    assert_eq!(store.songs.len(), 5);
}

#[test]
fn new_entries_are_refused_for_unknown_or_taken_ids() {
    let mut store = stocked();
    let untouched = store.clone();
    assert_eq!(
        songs_insert(&mut store, text("e-6"), text("s-9"), new_song("p-9", "x", None)),
        Err(StoreError::InvalidReference)
    );
    assert_eq!(
        songs_insert(&mut store, text("e-6"), text("s-9"), new_song("p-1", "x", Some("s-8"))),
        Err(StoreError::InvalidReference)
    );
    assert_eq!(
        songs_insert(&mut store, text("e-1"), text("s-9"), new_song("p-1", "x", None)),
        Err(StoreError::DuplicateId)
    );
    assert_eq!(
        songs_insert(&mut store, text("e-6"), text("s-1"), new_song("p-1", "x", None)),
        Err(StoreError::DuplicateId)
    );
    assert_eq!(
        songs_create(&mut store, new_song("p-9", "x", None)),
        Err(StoreError::InvalidReference)
    );
    assert_eq!(store, untouched);
    assert!(
        songs_insert(&mut store, text("e-6"), text("s-1"), new_song("p-1", "x", Some("s-1")))
            .is_ok()
    );
    assert!(songs_insert(&mut store, text("e-7"), text("s-1"), event("p-1", None)).is_ok());
}

fn update(id: &str, kind: Option<&str>, song: Option<&str>) -> UpdateSongPayload {
    UpdateSongPayload {
        id: text(id),
        playlist_id: text("p-1"),
        song_id: song.map(text),
        entry_type: kind.map(text),
        title: Some(text("New Title")),
        artist: Some(text("New Artist")),
        album: Some(text("Album")),
        duration: Some(111),
        tempo: None,
        style: None,
        notes: Some(text("note")),
        setlist_name: Some(text("Set B")),
        join_with_next: None,
        position: 99,
    }
}

#[test]
fn changing_a_song_changes_it_for_every_playlist() {
    let mut store = stocked();
    store.entries[0].join_with_next = true;
    let view = songs_update(&mut store, update("e-1", Some("song"), Some("s-1"))).unwrap();
    assert_eq!(view.title, text("New Title"));
    assert_eq!(view.artist, text("New Artist"));
    assert_eq!(view.setlist_name, Some(text("Set B")));
    assert_eq!(view.join_with_next, false);
    assert_eq!(view.position, 0);
    assert_eq!(view.tempo, None);
    assert_eq!(store.songs[0].duration, Some(111));
    assert_eq!(store.entries[0].title, None);
    let other = songs_get_by_playlist(&store, text("p-2"));
    assert_eq!(other[0].title, text("New Title"));
}

#[test]
fn changing_an_entry_without_naming_a_song_leaves_the_library() {
    let mut store = stocked();
    let library = store.songs.clone();
    let view = songs_update(&mut store, update("e-3", None, None)).unwrap();
    assert_eq!(store.songs, library);
    assert_eq!(view.title, text("Alive"));
    assert_eq!(view.setlist_name, Some(text("Set B")));
    songs_insert(&mut store, text("e-6"), text("unused"), event("p-1", Some("Break"))).unwrap();
    let view = songs_update(&mut store, update("e-6", Some("event"), Some("s-1"))).unwrap();
    assert_eq!(store.songs, library);
    assert_eq!(view.title, text("New Title"));
    assert_eq!(store.entries[5].title, Some(text("New Title")));
    assert_eq!(store.entries[5].setlist_name, Some(text("Set B")));
}

#[test]
fn changes_are_refused_where_something_is_missing() {
    let mut store = stocked();
    let untouched = store.clone();
    assert_eq!(
        songs_update(&mut store, update("e-9", None, Some("s-1"))),
        Err(StoreError::NotFound)
    );
    assert_eq!(
        songs_update(&mut store, update("e-1", None, Some("s-9"))),
        Err(StoreError::InvalidReference)
    );
    let mut untitled = update("e-1", None, Some("s-1"));
    untitled.title = None;
    assert_eq!(songs_update(&mut store, untitled), Err(StoreError::MissingValue));
    let mut anonymous = update("e-1", None, Some("s-1"));
    anonymous.artist = None;
    assert_eq!(songs_update(&mut store, anonymous), Err(StoreError::MissingValue));
    assert_eq!(store, untouched);
}

#[test]
fn removing_an_entry_closes_the_gap() {
    let mut store = stocked();
    assert_eq!(songs_delete(&mut store, text("e-3")), Ok(()));
    assert_eq!(
        positions(&store),
        vec![(text("e-1"), 0), (text("e-2"), 0), (text("e-4"), 1), (text("e-5"), 1)]
    );
    let untouched = store.clone();
    assert_eq!(songs_delete(&mut store, text("e-3")), Err(StoreError::NotFound));
    assert_eq!(store, untouched);
}

#[test]
fn reordering_gives_each_entry_its_place_in_the_list() {
    let mut store = stocked();
    let payload =
        ReorderPayload { playlist_id: text("p-1"), ids: vec![text("e-4"), text("e-1"), text("e-3")] };
    let views = songs_reorder(&mut store, payload).unwrap();
    assert_eq!(ids(&views), vec![text("e-4"), text("e-1"), text("e-3")]);
    assert_eq!(views.iter().map(|v| v.position).collect::<Vec<i64>>(), vec![0, 1, 2]);
    assert_eq!(
        positions(&store),
        vec![
            (text("e-1"), 1),
            (text("e-2"), 0),
            (text("e-3"), 2),
            (text("e-4"), 0),
            (text("e-5"), 1)
        ]
    );
    let partly = ReorderPayload { playlist_id: text("p-1"), ids: vec![text("e-3")] };
    let views = songs_reorder(&mut store, partly).unwrap();
    assert_eq!(ids(&views), vec![text("e-3"), text("e-4"), text("e-1")]);
    let twice =
        ReorderPayload { playlist_id: text("p-2"), ids: vec![text("e-5"), text("e-2"), text("e-5")] };
    let views = songs_reorder(&mut store, twice).unwrap();
    assert_eq!(ids(&views), vec![text("e-2"), text("e-5")]);
    assert_eq!(views[1].position, 2);
}

#[test]
fn reordering_passes_over_entries_of_other_playlists() {
    let mut store = stocked();
    let untouched = store.clone();
    let unknown = ReorderPayload { playlist_id: text("p-1"), ids: vec![text("e-9")] };
    assert_eq!(ids(&songs_reorder(&mut store, unknown).unwrap()), vec![text("e-1"), text("e-3"), text("e-4")]);
    assert_eq!(store, untouched);
    let nothing = ReorderPayload { playlist_id: text("p-1"), ids: Vec::new() };
    assert_eq!(songs_reorder(&mut store, nothing).unwrap().len(), 3);
    assert_eq!(store, untouched);
    let nowhere = ReorderPayload { playlist_id: text("p-9"), ids: vec![text("e-4"), text("e-1")] };
    assert_eq!(songs_reorder(&mut store, nowhere), Ok(Vec::new()));
    assert_eq!(store, untouched);
    let foreign = ReorderPayload {
        playlist_id: text("p-1"),
        ids: vec![text("e-2"), text("e-4"), text("e-9"), text("e-1")],
    };
    let views = songs_reorder(&mut store, foreign).unwrap();
    assert_eq!(ids(&views), vec![text("e-3"), text("e-4"), text("e-1")]);
    assert_eq!(views.iter().map(|v| v.position).collect::<Vec<i64>>(), vec![1, 1, 3]);
    assert!(views.iter().all(|v| v.playlist_id == text("p-1")));
    assert_eq!(
        positions(&store),
        vec![
            (text("e-1"), 3),
            (text("e-2"), 0),
            (text("e-3"), 1),
            (text("e-4"), 1),
            (text("e-5"), 1)
        ]
    );
    assert_eq!(store.entries[1], untouched.entries[1]);
}

#[test]
fn small_helpers_of_the_entries() {
    assert_eq!(given_or_empty(&None), text(""));
    assert_eq!(given_or_empty(&Some(text("x"))), text("x"));
    let list = vec![text("a"), text("b"), text("a")];
    assert_eq!(find_last(&list, "a"), Some(2));
    assert_eq!(find_last(&list, "b"), Some(1));
    assert_eq!(find_last(&list, "c"), None);
    assert_eq!(EntryKind::from_code(&None), EntryKind::Song);
    assert_eq!(EntryKind::from_code(&Some(text("event"))), EntryKind::Event);
    assert_eq!(EntryKind::from_code(&Some(text("Event"))), EntryKind::Song);
    assert_eq!(EntryKind::Event.code(), text("event"));
    assert_eq!(EntryKind::Song.code(), text("song"));
    let store = stocked();
    assert_eq!(store.find_playlist("p-2"), Some(1));
    assert_eq!(store.find_song("s-3"), Some(2));
    assert_eq!(store.find_entry("e-5"), Some(4));
    assert_eq!(store.find_entry("e-9"), None);
}
