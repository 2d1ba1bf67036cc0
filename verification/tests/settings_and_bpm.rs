use blackout_orm::bpm::{
    bpm_lookup, search_request, track_id_in, track_request, BpmAction, BpmEvent,
};
use blackout_orm::settings::{
    get_setting, settings_get, settings_set, upsert_setting, SetSettingsPayload, Settings,
    SettingsStore,
};

fn text(s: &str) -> String {
    s.to_string()
}

#[test]
fn settings_read_with_the_dark_theme_by_default() {
    let store = SettingsStore::new();
    assert_eq!(settings_get(&store), Settings { theme: text("dark"), bpm_api_key: None });
    assert_eq!(get_setting(&store, "theme"), None);
}

#[test]
fn settings_keep_what_is_given_and_leave_the_rest() {
    let mut store = SettingsStore::new();
    let read = settings_set(
        &mut store,
        SetSettingsPayload { theme: Some(text("light")), bpm_api_key: None },
    );
    assert_eq!(read, Settings { theme: text("light"), bpm_api_key: None });
    let read = settings_set(
        &mut store,
        SetSettingsPayload { theme: None, bpm_api_key: Some(text("k-1")) },
    );
    assert_eq!(read, Settings { theme: text("light"), bpm_api_key: Some(text("k-1")) });
    let read = settings_set(
        &mut store,
        SetSettingsPayload { theme: Some(text("dark")), bpm_api_key: Some(text("k-2")) },
    );
    assert_eq!(read, Settings { theme: text("dark"), bpm_api_key: Some(text("k-2")) });
    assert_eq!(store.entries.len(), 2);
    let untouched = store.clone();
    let read = settings_set(&mut store, SetSettingsPayload { theme: None, bpm_api_key: None });
    assert_eq!(read, Settings { theme: text("dark"), bpm_api_key: Some(text("k-2")) });
    assert_eq!(store, untouched);
}

#[test]
fn a_key_holds_one_text() {
    let mut store = SettingsStore::new();
    upsert_setting(&mut store, "a", "1");
    upsert_setting(&mut store, "b", "2");
    upsert_setting(&mut store, "a", "3");
    assert_eq!(get_setting(&store, "a"), Some(text("3")));
    assert_eq!(get_setting(&store, "b"), Some(text("2")));
    assert_eq!(get_setting(&store, "c"), None);
    assert_eq!(store.entries.len(), 2);
    assert_eq!(store.entries[0].key, text("a"));
}

#[test]
fn a_lookup_without_a_title_is_over_at_once() {
    let asked = |title: &str| BpmEvent::Asked { title: text(title), artist: text("x") };
    assert_eq!(bpm_lookup(asked("")), BpmAction::Answer { bpm: None });
    assert_eq!(bpm_lookup(asked("  \t\n ")), BpmAction::Answer { bpm: None });
    assert_eq!(search_request("", "x"), BpmAction::Answer { bpm: None });
}

#[test]
fn a_lookup_begins_with_the_search_for_the_trimmed_names() {
    let action = bpm_lookup(BpmEvent::Asked { title: text("  Hey Jude "), artist: text(" Beatles\n") });
    assert_eq!(
        action,
        BpmAction::Search {
            url: text(
                "https://api.deezer.com/search?q=track%3A%22Hey%20Jude%22%20artist%3A%22Beatles%22&limit=1"
            )
        }
    );
    assert_eq!(search_request("Hey Jude", "Beatles"), action);
    assert_eq!(
        search_request("a-b_c.d~e", "\u{e9}/+"),
        BpmAction::Search {
            url: text(
                "https://api.deezer.com/search?q=track%3A%22a-b_c.d~e%22%20artist%3A%22%C3%A9%2F%2B%22&limit=1"
            )
        }
    );
}

#[test]
fn the_reply_to_the_search_names_the_track_to_ask_for() {
    let replied = |body: &str| bpm_lookup(BpmEvent::SearchReplied { body: text(body) });
    assert_eq!(
        replied("{\"data\":[{\"id\":3135556,\"title\":\"x\"},{\"id\":7}],\"total\":2}"),
        BpmAction::Track { url: text("https://api.deezer.com/track/3135556") }
    );
    assert_eq!(replied("{\"data\":[]}"), BpmAction::Answer { bpm: None });
    assert_eq!(replied("{\"data\":[{\"id\":\"12\"}]}"), BpmAction::Answer { bpm: None });
    assert_eq!(replied("{\"data\":[{\"id\":-12}]}"), BpmAction::Answer { bpm: None });
    assert_eq!(replied("{\"error\":{\"code\":4}}"), BpmAction::Answer { bpm: None });
    assert_eq!(replied("[1,2]"), BpmAction::Answer { bpm: None });
    assert_eq!(
        replied("not json"),
        BpmAction::Fail { message: "expected ident at line 1 column 2".to_string() }
    );
    assert_eq!(
        replied(""),
        BpmAction::Fail { message: "EOF while parsing a value at line 1 column 0".to_string() }
    );
    let unread = serde_json::from_str::<serde_json::Value>("{\"data\":").unwrap_err();
    assert_eq!(replied("{\"data\":"), BpmAction::Fail { message: unread.to_string() });
}

#[test]
fn track_requests_follow_what_was_found() {
    assert_eq!(
        track_request(Err("no text".to_string())),
        BpmAction::Fail { message: "no text".to_string() }
    );
    assert_eq!(track_request(Ok(None)), BpmAction::Answer { bpm: None });
    assert_eq!(
        track_request(Ok(Some(0))),
        BpmAction::Track { url: text("https://api.deezer.com/track/0") }
    );
    assert_eq!(
        track_request(Ok(Some(u64::MAX))),
        BpmAction::Track { url: text("https://api.deezer.com/track/18446744073709551615") }
    );
}

#[test]
fn the_tempo_that_was_read_is_the_answer() {
    assert_eq!(
        bpm_lookup(BpmEvent::TrackReplied { bpm: Some(128) }),
        BpmAction::Answer { bpm: Some(128) }
    );
    assert_eq!(bpm_lookup(BpmEvent::TrackReplied { bpm: None }), BpmAction::Answer { bpm: None });
}

#[test]
fn the_track_id_is_read_from_the_first_track_of_the_list() {
    assert_eq!(track_id_in("{\"data\":[{\"id\":42},{\"id\":7}]}"), Ok(Some(42)));
    assert_eq!(track_id_in("{\"id\":42,\"data\":[{\"di\":42}]}"), Ok(None));
    assert_eq!(track_id_in("{\"tracks\":[{\"id\":42}]}"), Ok(None));
    assert_eq!(track_id_in("{\"data\":{\"id\":42}}"), Ok(None));
    assert_eq!(track_id_in("[]"), Ok(None));
    assert_eq!(track_id_in("{\"data\":[{\"id\":18446744073709551615}]}"), Ok(Some(u64::MAX)));
    assert_eq!(track_id_in("{\"data\":[{\"id\":4.0}]}"), Ok(None));
    assert!(track_id_in("{").is_err());
}
