use blackout_orm::calendar::{
    calendar_events_create, calendar_events_delete, calendar_events_get_all,
    calendar_events_get_by_month, calendar_events_insert, calendar_events_update,
    calendar_forget_member, has_prefix,
};
use blackout_orm::checklists::{
    checklist_create, checklist_delete, checklist_get_by_list, checklist_insert,
    checklist_reset_done_by_list, checklist_update, gig_checklists_create,
    gig_checklists_delete, gig_checklists_get_by_gig, gig_checklists_insert,
    gig_contacts_create, gig_contacts_delete, gig_contacts_get_by_gig, gig_contacts_insert,
    gigs_delete,
};
use blackout_orm::logbook::{
    gigs_create, gigs_get_all, gigs_insert, gigs_update, gigs_update_follow_up,
    gigs_update_status, venues_create, venues_delete, venues_get_all, venues_insert,
    venues_update, LogbookStore,
};
use blackout_orm::logbook_model::{
    CalendarEventPayload, ChecklistItemPayload, GigChecklistPayload, GigContactPayload,
    GigPayload, VenuePayload,
};
use blackout_orm::model::BandMember;
use blackout_orm::store::StoreError;

fn text(s: &str) -> String {
    s.to_string()
}

fn venue(name: &str) -> VenuePayload {
    VenuePayload {
        name: text(name),
        city: Some(text("Madrid")),
        address: None,
        website: None,
        capacity: Some(200),
        booking_name: None,
        booking_email: None,
        booking_phone: None,
        notes: None,
    }
}

fn gig(title: &str, venue_id: Option<&str>, date: Option<&str>) -> GigPayload {
    GigPayload {
        venue_id: venue_id.map(text),
        title: text(title),
        date: date.map(text),
        time: None,
        status: text("lead"),
        pay: None,
        load_in_time: None,
        soundcheck_time: None,
        set_time: None,
        setlist_id: None,
        notes: None,
        follow_up_date: Some(text("2030-01-01")),
        follow_up_note: Some(text("call")),
    }
}

fn member(id: &str, name: &str) -> BandMember {
    BandMember {
        id: text(id),
        name: text(name),
        roles: Vec::new(),
        stage_position: None,
        vocal_mic_id: None,
        notes: None,
        sort_order: 0,
    }
}

fn event(title: &str, date: &str, end: Option<&str>, member_id: Option<&str>) -> CalendarEventPayload {
    CalendarEventPayload {
        event_type: text("rehearsal"),
        title: text(title),
        date: text(date),
        end_date: end.map(text),
        member_id: member_id.map(text),
        all_day: true,
        notes: None,
    }
}

fn booked() -> LogbookStore {
    let mut store = LogbookStore::new();
    venues_insert(&mut store, text("v-1"), text("t1"), venue("Sala Z")).unwrap();
    venues_insert(&mut store, text("v-2"), text("t2"), venue("Arena")).unwrap();
    gigs_insert(&mut store, text("g-1"), text("t3"), gig("Spring", Some("v-1"), Some("2024-03-01")))
        .unwrap();
    gigs_insert(&mut store, text("g-2"), text("t4"), gig("Open", None, None)).unwrap();
    gigs_insert(&mut store, text("g-3"), text("t5"), gig("Summer", Some("v-2"), Some("2024-07-01")))
        .unwrap();
    store
}

#[test]
fn venues_list_by_name_and_keep_their_age() {
    let mut store = booked();
    let names: Vec<String> = venues_get_all(&store).into_iter().map(|v| v.name).collect();
    assert_eq!(names, vec![text("Arena"), text("Sala Z")]);
    let made = venues_create(&mut store, venue("Club")).unwrap();
    assert_eq!(made.id.len(), 36);
    assert!(!made.created_at.is_empty());
    assert_eq!(
        venues_insert(&mut store, text("v-1"), text("t"), venue("Dup")),
        Err(StoreError::DuplicateId)
    );
    let mut changed = store.venues[0].clone();
    changed.name = text("Sala A");
    changed.created_at = text("forged");
    assert_eq!(venues_update(&mut store, changed.clone()), Ok(changed));
    assert_eq!(store.venues[0].name, text("Sala A"));
    assert_eq!(store.venues[0].created_at, text("t1"));
    let mut ghost = store.venues[0].clone();
    ghost.id = text("v-9");
    ghost.name = text("Nowhere");
    let untouched = store.clone();
    assert_eq!(venues_update(&mut store, ghost.clone()), Ok(ghost));
    assert_eq!(store, untouched);
}

#[test]
fn removing_a_venue_leaves_its_gigs_without_one() {
    let mut store = booked();
    assert_eq!(venues_delete(&mut store, text("v-1")), Ok(()));
    assert_eq!(store.venues.len(), 1);
    assert_eq!(store.gigs[0].venue_id, None);
    assert_eq!(store.gigs[2].venue_id, Some(text("v-2")));
    let untouched = store.clone();
    assert_eq!(venues_delete(&mut store, text("v-1")), Ok(()));
    assert_eq!(store, untouched);
}

#[test]
fn gigs_list_latest_first_with_their_venues() {
    let store = booked();
    let gigs = gigs_get_all(&store);
    let titles: Vec<String> = gigs.iter().map(|g| g.title.clone()).collect();
    assert_eq!(titles, vec![text("Summer"), text("Spring"), text("Open")]);
    assert_eq!(gigs[0].venue_name, Some(text("Arena")));
    assert_eq!(gigs[1].venue_name, Some(text("Sala Z")));
    assert_eq!(gigs[2].venue_name, None);
    assert_eq!(gigs[0].follow_up_date, None);
    assert_eq!(gigs[0].follow_up_note, None);
    assert_eq!(gigs[0].created_at, text("t5"));
}

#[test]
fn gigs_are_added_changed_and_refused() {
    let mut store = booked();
    let made = gigs_create(&mut store, gig("Autumn", Some("v-2"), Some("2024-10-01"))).unwrap();
    assert_eq!(made.id.len(), 36);
    assert_eq!(made.venue_name, Some(text("Arena")));
    assert_eq!(store.gigs[3].venue_name, None);
    let untouched = store.clone();
    assert_eq!(
        gigs_insert(&mut store, text("g-9"), text("t"), gig("X", Some("v-9"), None)),
        Err(StoreError::InvalidReference)
    );
    assert_eq!(
        gigs_insert(&mut store, text("g-1"), text("t"), gig("X", None, None)),
        Err(StoreError::DuplicateId)
    );
    assert_eq!(gigs_create(&mut store, gig("X", Some("v-9"), None)), Err(StoreError::InvalidReference));
    assert_eq!(store, untouched);

    let mut changed = store.gigs[1].clone();
    changed.venue_id = Some(text("v-1"));
    changed.title = text("Open Air");
    changed.created_at = text("forged");
    changed.follow_up_note = Some(text("mail"));
    let back = gigs_update(&mut store, changed).unwrap();
    assert_eq!(back.title, text("Open Air"));
    assert_eq!(back.venue_name, Some(text("Sala Z")));
    assert_eq!(back.created_at, text("t4"));
    assert_eq!(back.follow_up_note, Some(text("mail")));
    assert_eq!(store.gigs[1].created_at, text("t4"));
    let mut ghost = store.gigs[1].clone();
    ghost.id = text("g-9");
    assert_eq!(gigs_update(&mut store, ghost), Err(StoreError::NotFound));
    let mut dangling = store.gigs[1].clone();
    dangling.venue_id = Some(text("v-9"));
    assert_eq!(gigs_update(&mut store, dangling), Err(StoreError::InvalidReference));

    let back = gigs_update_status(&mut store, text("g-1"), text("confirmed")).unwrap();
    assert_eq!(back.status, text("confirmed"));
    assert_eq!(back.venue_name, Some(text("Sala Z")));
    assert_eq!(store.gigs[0].status, text("confirmed"));
    assert_eq!(
        gigs_update_status(&mut store, text("g-9"), text("x")),
        Err(StoreError::NotFound)
    );
    assert_eq!(
        gigs_update_follow_up(&mut store, text("g-1"), Some(text("2024-04-01")), None),
        Ok(())
    );
    assert_eq!(store.gigs[0].follow_up_date, Some(text("2024-04-01")));
    assert_eq!(store.gigs[0].follow_up_note, None);
    let untouched = store.clone();
    assert_eq!(gigs_update_follow_up(&mut store, text("g-9"), Some(text("x")), None), Ok(()));
    assert_eq!(store, untouched);
}

fn listed(store: &mut LogbookStore) {
    let list = |gig: &str, name: &str| GigChecklistPayload { gig_id: text(gig), name: text(name) };
    gig_checklists_insert(store, text("c-1"), text("t2"), list("g-1", "Load")).unwrap();
    gig_checklists_insert(store, text("c-2"), text("t1"), list("g-1", "Merch")).unwrap();
    gig_checklists_insert(store, text("c-3"), text("t0"), list("g-3", "Other")).unwrap();
    let item = |list: &str, category: &str, what: &str, order: i64| ChecklistItemPayload {
        checklist_id: text(list),
        category: text(category),
        text: text(what),
        sort_order: order,
    };
    checklist_insert(store, text("i-1"), item("c-1", "cables", "XLR", 2)).unwrap();
    checklist_insert(store, text("i-2"), item("c-1", "amps", "Twin", 2)).unwrap();
    checklist_insert(store, text("i-3"), item("c-1", "zz", "First", 1)).unwrap();
    checklist_insert(store, text("i-4"), item("c-2", "merch", "Shirts", 0)).unwrap();
    checklist_insert(store, text("i-5"), item("c-3", "x", "Y", 0)).unwrap();
    let contact = |gig: &str, date: &str| GigContactPayload {
        gig_id: text(gig),
        date: text(date),
        contact_type: text("call"),
        notes: None,
    };
    gig_contacts_insert(store, text("k-1"), text("t1"), contact("g-1", "2024-01-05")).unwrap();
    gig_contacts_insert(store, text("k-2"), text("t2"), contact("g-1", "2024-02-01")).unwrap();
    gig_contacts_insert(store, text("k-3"), text("t3"), contact("g-1", "2024-01-05")).unwrap();
    gig_contacts_insert(store, text("k-4"), text("t4"), contact("g-3", "2024-09-09")).unwrap();
}

#[test]
fn checklists_items_and_contacts_list_in_their_orders() {
    let mut store = booked();
    listed(&mut store);
    let lists: Vec<String> =
        gig_checklists_get_by_gig(&store, text("g-1")).into_iter().map(|c| c.id).collect();
    assert_eq!(lists, vec![text("c-2"), text("c-1")]);
    let items: Vec<String> =
        checklist_get_by_list(&store, text("c-1")).into_iter().map(|i| i.id).collect();
    assert_eq!(items, vec![text("i-3"), text("i-2"), text("i-1")]);
    let contacts: Vec<String> =
        gig_contacts_get_by_gig(&store, text("g-1")).into_iter().map(|c| c.id).collect();
    assert_eq!(contacts, vec![text("k-2"), text("k-3"), text("k-1")]);
    assert_eq!(gig_checklists_get_by_gig(&store, text("g-2")).len(), 0);
    assert_eq!(checklist_get_by_list(&store, text("c-9")).len(), 0);
    assert_eq!(gig_contacts_get_by_gig(&store, text("g-9")).len(), 0);
}

#[test]
fn new_records_on_a_gig_need_the_gig() {
    let mut store = booked();
    listed(&mut store);
    let untouched = store.clone();
    let list = GigChecklistPayload { gig_id: text("g-9"), name: text("x") };
    assert_eq!(gig_checklists_create(&mut store, list.clone()), Err(StoreError::InvalidReference));
    assert_eq!(
        gig_checklists_insert(&mut store, text("c-9"), text("t"), list),
        Err(StoreError::InvalidReference)
    );
    let dup = GigChecklistPayload { gig_id: text("g-1"), name: text("x") };
    assert_eq!(
        gig_checklists_insert(&mut store, text("c-1"), text("t"), dup.clone()),
        Err(StoreError::DuplicateId)
    );
    let item = ChecklistItemPayload {
        checklist_id: text("c-9"),
        category: text("x"),
        text: text("x"),
        sort_order: 0,
    };
    assert_eq!(checklist_create(&mut store, item.clone()), Err(StoreError::InvalidReference));
    let mut taken = item.clone();
    taken.checklist_id = text("c-1");
    assert_eq!(
        checklist_insert(&mut store, text("i-1"), taken.clone()),
        Err(StoreError::DuplicateId)
    );
    let contact = GigContactPayload {
        gig_id: text("g-9"),
        date: text("d"),
        contact_type: text("call"),
        notes: None,
    };
    assert_eq!(gig_contacts_create(&mut store, contact.clone()), Err(StoreError::InvalidReference));
    let mut known = contact.clone();
    known.gig_id = text("g-1");
    assert_eq!(
        gig_contacts_insert(&mut store, text("k-1"), text("t"), known.clone()),
        Err(StoreError::DuplicateId)
    );
    assert_eq!(store, untouched);
    let c = gig_checklists_create(&mut store, dup).unwrap();
    assert_eq!(c.id.len(), 36);
    let i = checklist_create(&mut store, taken).unwrap();
    assert_eq!(i.id.len(), 36);
    assert_eq!(i.done, false);
    let k = gig_contacts_create(&mut store, known).unwrap();
    assert_eq!(k.id.len(), 36);
}

#[test]
fn items_change_stay_on_their_list_and_reset() {
    let mut store = booked();
    listed(&mut store);
    let mut changed = store.items[0].clone();
    changed.done = true;
    changed.text = text("XLR x10");
    changed.checklist_id = text("c-2");
    assert_eq!(checklist_update(&mut store, changed.clone()), Ok(changed));
    assert_eq!(store.items[0].done, true);
    assert_eq!(store.items[0].text, text("XLR x10"));
    assert_eq!(store.items[0].checklist_id, text("c-1"));
    let mut ghost = store.items[0].clone();
    ghost.id = text("i-9");
    let untouched = store.clone();
    assert_eq!(checklist_update(&mut store, ghost.clone()), Ok(ghost));
    assert_eq!(store, untouched);
    store.items[3].done = true;
    let before = store.clone();
    assert_eq!(checklist_reset_done_by_list(&mut store, text("c-1")), Ok(()));
    assert_eq!(store.items[0].done, false);
    assert_eq!(store.items[3].done, true);
    assert_eq!(store.items.len(), before.items.len());
    for (now, was) in store.items.iter().zip(before.items.iter()) {
        assert_eq!(now.done, was.done && was.checklist_id != text("c-1"));
        assert_eq!(
            (&now.id, &now.checklist_id, &now.text, &now.category, now.sort_order),
            (&was.id, &was.checklist_id, &was.text, &was.category, was.sort_order)
        );
    }
    let untouched = store.clone();
    assert_eq!(checklist_reset_done_by_list(&mut store, text("c-1")), Ok(()));
    assert_eq!(store, untouched);
    assert_eq!(checklist_reset_done_by_list(&mut store, text("c-9")), Ok(()));
    assert_eq!(store, untouched);
    assert_eq!(checklist_delete(&mut store, text("i-1")), Ok(()));
    assert_eq!(store.items.len(), 4);
    let untouched = store.clone();
    assert_eq!(checklist_delete(&mut store, text("i-1")), Ok(()));
    assert_eq!(store, untouched);
    assert_eq!(gig_contacts_delete(&mut store, text("k-2")), Ok(()));
    assert_eq!(store.contacts.len(), 3);
    let untouched = store.clone();
    assert_eq!(gig_contacts_delete(&mut store, text("k-2")), Ok(()));
    assert_eq!(store, untouched);
}

#[test]
fn removing_a_checklist_or_a_gig_removes_what_hangs_on_it() {
    let mut store = booked();
    listed(&mut store);
    assert_eq!(gig_checklists_delete(&mut store, text("c-2")), Ok(()));
    let ids = |s: &LogbookStore| -> Vec<String> { s.items.iter().map(|i| i.id.clone()).collect() };
    assert_eq!(ids(&store), vec![text("i-1"), text("i-2"), text("i-3"), text("i-5")]);
    let untouched = store.clone();
    assert_eq!(gig_checklists_delete(&mut store, text("c-2")), Ok(()));
    assert_eq!(store, untouched);
    assert_eq!(gigs_delete(&mut store, text("g-1")), Ok(()));
    assert_eq!(store.gigs.len(), 2);
    assert_eq!(ids(&store), vec![text("i-5")]);
    assert_eq!(store.checklists.len(), 1);
    assert_eq!(store.checklists[0].id, text("c-3"));
    assert_eq!(store.contacts.len(), 1);
    assert_eq!(store.contacts[0].id, text("k-4"));
    let untouched = store.clone();
    assert_eq!(gigs_delete(&mut store, text("g-1")), Ok(()));
    assert_eq!(store, untouched);
}

#[test]
fn calendar_lists_by_date_and_by_month() {
    let mut store = LogbookStore::new();
    let members = vec![member("b-1", "Ana"), member("b-2", "Bea")];
    let put = |store: &mut LogbookStore, id: &str, p: CalendarEventPayload| {
        calendar_events_insert(store, &members, text(id), text("t"), p).unwrap()
    };
    let made = put(&mut store, "e-1", event("Trip", "2024-03-28", Some("2024-04-02"), Some("b-2")));
    assert_eq!(made.member_name, Some(text("Bea")));
    put(&mut store, "e-2", event("Gig", "2024-04-15", None, None));
    put(&mut store, "e-3", event("Rehearsal", "2024-03-05", None, Some("b-1")));
    put(&mut store, "e-4", event("Long", "2023-12-30", Some("2024-03-01"), None));
    put(&mut store, "e-5", event("Far", "12024-04-01", None, None));
    let all: Vec<String> =
        calendar_events_get_all(&store, &members).into_iter().map(|e| e.id).collect();
    assert_eq!(all, vec![text("e-5"), text("e-4"), text("e-3"), text("e-1"), text("e-2")]);
    let march = calendar_events_get_by_month(&store, &members, 2024, 3);
    let ids: Vec<String> = march.iter().map(|e| e.id.clone()).collect();
    assert_eq!(ids, vec![text("e-4"), text("e-3"), text("e-1")]);
    assert_eq!(march[1].member_name, Some(text("Ana")));
    assert_eq!(march[0].member_name, None);
    let april: Vec<String> = calendar_events_get_by_month(&store, &members, 2024, 4)
        .into_iter()
        .map(|e| e.id)
        .collect();
    assert_eq!(april, vec![text("e-1"), text("e-2")]);
    assert_eq!(calendar_events_get_by_month(&store, &members, 2024, 12).len(), 0);
    assert_eq!(calendar_events_get_by_month(&store, &members, 2023, 12).len(), 1);
    assert_eq!(calendar_events_get_by_month(&store, &members, 12024, 4).len(), 1);
    assert_eq!(calendar_events_get_by_month(&store, &members, 24, 3).len(), 0);
}

#[test]
fn calendar_entries_are_added_changed_and_removed() {
    let mut store = LogbookStore::new();
    let members = vec![member("b-1", "Ana")];
    let made =
        calendar_events_create(&mut store, &members, event("Trip", "2024-03-28", None, Some("b-1")))
            .unwrap();
    assert_eq!(made.id.len(), 36);
    assert_eq!(made.member_name, Some(text("Ana")));
    assert_eq!(store.events[0].member_name, None);
    let untouched = store.clone();
    assert_eq!(
        calendar_events_create(&mut store, &members, event("X", "d", None, Some("b-9"))),
        Err(StoreError::InvalidReference)
    );
    assert_eq!(
        calendar_events_insert(
            &mut store,
            &members,
            made.id.clone(),
            text("t"),
            event("X", "d", None, None)
        ),
        Err(StoreError::DuplicateId)
    );
    assert_eq!(store, untouched);
    let mut changed = made.clone();
    changed.title = text("Journey");
    changed.member_id = None;
    changed.created_at = text("forged");
    let back = calendar_events_update(&mut store, &members, changed).unwrap();
    assert_eq!(back.title, text("Journey"));
    assert_eq!(back.member_name, None);
    assert_eq!(back.created_at, made.created_at);
    let mut ghost = made.clone();
    ghost.id = text("e-9");
    assert_eq!(calendar_events_update(&mut store, &members, ghost), Err(StoreError::NotFound));
    let mut dangling = made.clone();
    dangling.member_id = Some(text("b-9"));
    assert_eq!(
        calendar_events_update(&mut store, &members, dangling),
        Err(StoreError::InvalidReference)
    );
    assert_eq!(calendar_events_delete(&mut store, made.id.clone()), Ok(()));
    assert_eq!(store.events.len(), 0);
    assert_eq!(calendar_events_delete(&mut store, made.id), Ok(()));
    assert_eq!(store.events.len(), 0);
}

#[test]
fn a_member_who_leaves_takes_the_calendar_entries_along() {
    let mut store = LogbookStore::new();
    let members = vec![member("b-1", "Ana"), member("b-2", "Bea")];
    for (id, who) in [("e-1", Some("b-1")), ("e-2", None), ("e-3", Some("b-2")), ("e-4", Some("b-1"))]
    {
        calendar_events_insert(&mut store, &members, text(id), text("t"), event("x", "d", None, who))
            .unwrap();
    }
    calendar_forget_member(&mut store, "b-1");
    let left: Vec<String> = store.events.iter().map(|e| e.id.clone()).collect();
    assert_eq!(left, vec![text("e-2"), text("e-3")]);
}

#[test]
fn prefixes_are_compared_character_by_character() {
    assert!(has_prefix("2024-03-01", "2024-03"));
    assert!(has_prefix("2024-03", "2024-03"));
    assert!(!has_prefix("2024-0", "2024-03"));
    assert!(!has_prefix("2024-04-01", "2024-03"));
    assert!(has_prefix("anything", ""));
    assert!(has_prefix("\u{e9}t\u{e9}", "\u{e9}t"));
    assert!(!has_prefix("ete", "\u{e9}t"));
}
