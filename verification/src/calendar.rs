//! The band's calendar: entries for the whole band or for one member, listed
//! all together or for one month.

use vstd::prelude::*;
use crate::ids::{fresh_id, is_hyphenated_id, none_fresh, time_stamp};
use crate::logbook::{all_marked, event_key, LogbookStore, LogbookView};
use crate::logbook_model::{
    calendar_event_of, CalendarEvent, CalendarEventPayload, CalendarEventValue,
};
use crate::model::{BandMember, BandMemberView};
use crate::ordering::OrderKeyView;
use crate::store::{
    find_id, idents, lemma_find_id, listing_keys, position_of, refused, StoreError,
};
use crate::tables::{add_record, drop_owned, drop_record, mark_all, select, selected, values, without_owner};
use crate::numbers::{zero_padded, zero_padded_decimal};
use crate::text::{copy_opt_text, copy_text};
use vstd::string::{StrSliceExecFns, StringExecFns};

verus! {

/// The ids of the calendar entries, in store order.
pub open spec fn event_ids(s: LogbookView) -> Seq<Seq<char>> {
    Seq::new(s.events.len(), |i: int| s.events[i].id)
}

/// The ids of a list of members.
pub open spec fn ids_of_members(members: Seq<BandMemberView>) -> Seq<Seq<char>> {
    Seq::new(members.len(), |i: int| members[i].id)
}

/// The ids of the store's calendar entries and of the members are the ids of
/// the records.
pub proof fn lemma_calendar_idents(store: &LogbookStore, members: &Vec<BandMember>)
    ensures
        idents(store.events@) == event_ids(store@),
        idents(members@) == ids_of_members(members.deep_view()),
{
    assert(idents(store.events@) =~= event_ids(store@));
    assert(idents(members@) =~= ids_of_members(members.deep_view()));
}

/// What the dates of a month begin with: the year in four places, a hyphen,
/// the month in two.
pub open spec fn month_text(year: i32, month: i32) -> Seq<char> {
    zero_padded(year as int, 4) + seq!['-'] + zero_padded(month as int, 2)
}

/// What the dates of the month `month` of the year `year` begin with.
pub fn month_prefix(year: i32, month: i32) -> (r: String)
    ensures
        r@ == month_text(year, month),
{
    proof {
        reveal_strlit("-");
    }
    let mut r = zero_padded_decimal(year as i64, 4);
    r.append("-");
    let m = zero_padded_decimal(month as i64, 2);
    r.append(m.as_str());
    r
}

/// `text` begins with `prefix`.
pub open spec fn begins_with(text: Seq<char>, prefix: Seq<char>) -> bool {
    prefix.len() <= text.len() && text.subrange(0, prefix.len() as int) == prefix
}

/// Whether `text` begins with `prefix`.
pub fn has_prefix(text: &str, prefix: &str) -> (r: bool)
    ensures
        r == begins_with(text@, prefix@),
{
    let n = prefix.unicode_len();
    if text.unicode_len() < n {
        return false;
    }
    let mut i: usize = 0;
    while i < n
        invariant
            i <= n,
            n == prefix@.len(),
            n <= text@.len(),
            forall|j: int| 0 <= j < i ==> text@[j] == prefix@[j],
        decreases n - i,
    {
        if text.get_char(i) != prefix.get_char(i) {
            assert(text@.subrange(0, n as int)[i as int] != prefix@[i as int]);
            return false;
        }
        i = i + 1;
    }
    assert(text@.subrange(0, n as int) =~= prefix@);
    true
}

/// The name of the member that a calendar entry names, where `members` holds
/// the member.
pub open spec fn member_name_of(
    members: Seq<BandMemberView>,
    member_id: Option<Seq<char>>,
) -> Option<Seq<char>> {
    match member_id {
        Some(m) => match find_id(ids_of_members(members), m) {
            Some(i) => Some(members[i].name),
            None => None,
        },
        None => None,
    }
}

/// A calendar entry with the name of its member looked up.
pub open spec fn event_with_member(
    members: Seq<BandMemberView>,
    e: CalendarEventValue,
) -> CalendarEventValue {
    CalendarEventValue { member_name: member_name_of(members, e.member_id), ..e }
}

/// A copy of a calendar entry with the name of its member looked up.
pub fn event_joined(members: &Vec<BandMember>, event: &CalendarEvent) -> (r: CalendarEvent)
    ensures
        r@ == event_with_member(members.deep_view(), event@),
{
    assert(idents(members@) =~= ids_of_members(members.deep_view()));
    let mut out = event.copy();
    out.member_name = match &event.member_id {
        Some(m) => match position_of(members, m.as_str()) {
            Some(i) => {
                assert(members.deep_view()[i as int] == members@[i as int]@);
                Some(copy_text(&members[i].name))
            },
            None => None,
        },
        None => None,
    };
    out
}

/// The listing keys of the calendar entries, in store order.
pub open spec fn event_keys(s: LogbookView) -> Seq<OrderKeyView> {
    Seq::new(s.events.len(), |i: int| event_key(s.events[i]))
}

/// The chosen calendar entries by date, each with the name of its member.
pub open spec fn events_listed(
    s: LogbookView,
    members: Seq<BandMemberView>,
    mask: Seq<bool>,
) -> Seq<CalendarEventValue> {
    Seq::new(
        selected(s.events, event_keys(s), mask, false).len(),
        |k: int| event_with_member(members, selected(s.events, event_keys(s), mask, false)[k]),
    )
}

/// Lists the calendar entries that `mask` marks.
fn list_events(store: &LogbookStore, members: &Vec<BandMember>, mask: &Vec<bool>) -> (r: Vec<
    CalendarEvent,
>)
    requires
        mask@.len() == store@.events.len(),
    ensures
        r.deep_view() == events_listed(store@, members.deep_view(), mask@),
{
    assert(listing_keys(store.events@) =~= event_keys(store@));
    let plain = select(&store.events, mask, false);
    let ghost wanted = selected(store@.events, event_keys(store@), mask@, false);
    let mut r: Vec<CalendarEvent> = Vec::new();
    let mut k: usize = 0;
    while k < plain.len()
        invariant
            k <= plain@.len(),
            plain.deep_view() == wanted,
            r@.len() == k,
            forall|j: int|
                0 <= j < k ==> (#[trigger] r@[j])@ == event_with_member(
                    members.deep_view(),
                    wanted[j],
                ),
        decreases plain@.len() - k,
    {
        assert(plain.deep_view()[k as int] == plain@[k as int]@);
        r.push(event_joined(members, &plain[k]));
        k = k + 1;
    }
    assert(plain.deep_view().len() == plain@.len());
    assert(r.deep_view() =~= events_listed(store@, members.deep_view(), mask@));
    r
}

/// All calendar entries by date, each with the name of its member.
pub fn calendar_events_get_all(store: &LogbookStore, members: &Vec<BandMember>) -> (r: Vec<
    CalendarEvent,
>)
    ensures
        r.deep_view() == events_listed(
            store@,
            members.deep_view(),
            all_marked(store@.events.len()),
        ),
{
    let mask = mark_all(store.events.len());
    assert(mask@ =~= all_marked(store@.events.len()));
    list_events(store, members, &mask)
}

/// Whether a calendar entry begins or ends in the month whose dates begin with
/// `prefix`.
pub open spec fn in_month(e: CalendarEventValue, prefix: Seq<char>) -> bool {
    begins_with(e.date, prefix) || (e.end_date matches Some(end) && begins_with(end, prefix))
}

/// The mask of the calendar entries that begin or end in a month.
pub open spec fn month_mask(s: LogbookView, prefix: Seq<char>) -> Seq<bool> {
    Seq::new(s.events.len(), |i: int| in_month(s.events[i], prefix))
}

/// The calendar entries that begin or end in the month `month` of the year
/// `year`, by date, each with the name of its member.
pub fn calendar_events_get_by_month(
    store: &LogbookStore,
    members: &Vec<BandMember>,
    year: i32,
    month: i32,
) -> (r: Vec<CalendarEvent>)
    ensures
        r.deep_view() == events_listed(
            store@,
            members.deep_view(),
            month_mask(store@, month_text(year, month)),
        ),
{
    let prefix = month_prefix(year, month);
    let mut mask: Vec<bool> = Vec::new();
    let mut i: usize = 0;
    while i < store.events.len()
        invariant
            i <= store@.events.len(),
            prefix@ == month_text(year, month),
            mask@.len() == i,
            forall|j: int| 0 <= j < i ==> mask@[j] == in_month(store@.events[j], prefix@),
        decreases store@.events.len() - i,
    {
        let e = &store.events[i];
        assert(store@.events[i as int] == e@);
        let hit = has_prefix(e.date.as_str(), prefix.as_str()) || match &e.end_date {
            Some(end) => has_prefix(end.as_str(), prefix.as_str()),
            None => false,
        };
        mask.push(hit);
        i = i + 1;
    }
    assert(mask@ =~= month_mask(store@, month_text(year, month)));
    list_events(store, members, &mask)
}

/// The member that a calendar entry names is one of `members`.
pub open spec fn event_refs_ok(members: Seq<BandMemberView>, e: CalendarEventValue) -> bool {
    e.member_id matches Some(m) ==> ids_of_members(members).contains(m)
}

/// Whether the member that a calendar entry names is one of `members`.
fn event_names_member(members: &Vec<BandMember>, member_id: &Option<String>) -> (r: bool)
    ensures
        r == (member_id.deep_view() matches Some(m) ==> ids_of_members(
            members.deep_view(),
        ).contains(m)),
{
    assert(idents(members@) =~= ids_of_members(members.deep_view()));
    match member_id {
        Some(m) => {
            proof {
                lemma_find_id(idents(members@), m@);
            }
            position_of(members, m.as_str()).is_some()
        },
        None => true,
    }
}

/// The store with one more calendar entry at the end.
pub open spec fn with_event(s: LogbookView, e: CalendarEventValue) -> LogbookView {
    LogbookView { events: s.events.push(e), ..s }
}

/// Adds the calendar entry that `payload` describes under the id `id`, made at
/// `created_at`. Hands the entry back with the name of its member.
///
/// Refused with `InvalidReference` where `members` does not hold the member
/// that the payload names, and else with `DuplicateId` where the logbook
/// already holds a calendar entry with the id.
pub fn calendar_events_insert(
    store: &mut LogbookStore,
    members: &Vec<BandMember>,
    id: String,
    created_at: String,
    payload: CalendarEventPayload,
) -> (r: Result<CalendarEvent, StoreError>)
    ensures
        !event_refs_ok(members.deep_view(), calendar_event_of(id@, created_at@, payload))
            ==> refused(r, StoreError::InvalidReference),
        event_refs_ok(members.deep_view(), calendar_event_of(id@, created_at@, payload))
            && event_ids(old(store)@).contains(id@) ==> refused(r, StoreError::DuplicateId),
        event_refs_ok(members.deep_view(), calendar_event_of(id@, created_at@, payload))
            && !event_ids(old(store)@).contains(id@) ==> r is Ok,
        r matches Ok(e) ==> e@ == event_with_member(
            members.deep_view(),
            calendar_event_of(id@, created_at@, payload),
        ) && final(store)@ == with_event(
            old(store)@,
            calendar_event_of(id@, created_at@, payload),
        ),
        r is Err ==> final(store)@ == old(store)@,
{
    proof {
        lemma_calendar_idents(store, members);
    }
    if !event_names_member(members, &payload.member_id) {
        return Err(StoreError::InvalidReference);
    }
    let event = CalendarEvent::from_payload(id, created_at, payload);
    let out = event_joined(members, &event);
    match add_record(&mut store.events, event) {
        Ok(()) => Ok(out),
        Err(e) => Err(e),
    }
}

/// Adds the calendar entry that `payload` describes under a fresh id, made now.
///
/// Refused with `InvalidReference` where `members` does not hold the member
/// that the payload names, and else with `DuplicateId` where the fresh id is
/// that of a calendar entry of the logbook.
///
/// Which fresh id is drawn is not known beforehand. Where no id of that kind in
/// the store has the shape of a fresh id, none can be taken, and the call
/// succeeds unless it is refused for what the payload names.
pub fn calendar_events_create(
    store: &mut LogbookStore,
    members: &Vec<BandMember>,
    payload: CalendarEventPayload,
) -> (r: Result<CalendarEvent, StoreError>)
    ensures
        !event_refs_ok(
            members.deep_view(),
            calendar_event_of(Seq::empty(), Seq::empty(), payload),
        ) ==> refused(r, StoreError::InvalidReference),
        event_refs_ok(
            members.deep_view(),
            calendar_event_of(Seq::empty(), Seq::empty(), payload),
        ) && none_fresh(event_ids(old(store)@)) ==> r is Ok,
        r matches Err(e) ==> (e == StoreError::InvalidReference && !event_refs_ok(
            members.deep_view(),
            calendar_event_of(Seq::empty(), Seq::empty(), payload),
        )) || (e == StoreError::DuplicateId && event_refs_ok(
            members.deep_view(),
            calendar_event_of(Seq::empty(), Seq::empty(), payload),
        )),
        r matches Ok(e) ==> is_hyphenated_id(e@.id) && !event_ids(old(store)@).contains(e@.id)
            && e@ == event_with_member(
            members.deep_view(),
            calendar_event_of(e@.id, e@.created_at, payload),
        ) && final(store)@ == with_event(
            old(store)@,
            calendar_event_of(e@.id, e@.created_at, payload),
        ),
        r is Err ==> final(store)@ == old(store)@,
{
    calendar_events_insert(store, members, fresh_id(), time_stamp(), payload)
}

/// The calendar entry `new` as it is stored in place of `old`: made when `old`
/// was, with no member name of its own.
pub open spec fn event_kept(old: CalendarEventValue, new: CalendarEventValue) -> CalendarEventValue {
    CalendarEventValue { created_at: old.created_at, member_name: old.member_name, ..new }
}

/// The store with the calendar entry at position `i` replaced by `e`.
pub open spec fn with_event_at(s: LogbookView, i: int, e: CalendarEventValue) -> LogbookView {
    LogbookView { events: s.events.update(i, event_kept(s.events[i], e)), ..s }
}

/// Replaces the calendar entry that has the id of `event` by `event`; the
/// moment it was made stays. Hands the stored entry back with the name of its
/// member.
///
/// Refused with `InvalidReference` where `members` does not hold the member
/// that `event` names, and else with `NotFound` where the logbook holds no
/// calendar entry with the id.
pub fn calendar_events_update(
    store: &mut LogbookStore,
    members: &Vec<BandMember>,
    event: CalendarEvent,
) -> (r: Result<CalendarEvent, StoreError>)
    ensures
        !event_refs_ok(members.deep_view(), event@) ==> refused(r, StoreError::InvalidReference),
        event_refs_ok(members.deep_view(), event@) && find_id(event_ids(old(store)@), event@.id)
            is None ==> refused(r, StoreError::NotFound),
        event_refs_ok(members.deep_view(), event@) && find_id(event_ids(old(store)@), event@.id)
            is Some ==> r is Ok,
        r matches Ok(e) ==> final(store)@ == with_event_at(
            old(store)@,
            find_id(event_ids(old(store)@), event@.id)->0,
            event@,
        ) && e@ == event_with_member(
            members.deep_view(),
            final(store)@.events[find_id(event_ids(old(store)@), event@.id)->0],
        ),
        r is Err ==> final(store)@ == old(store)@,
{
    proof {
        lemma_calendar_idents(store, members);
    }
    if !event_names_member(members, &event.member_id) {
        return Err(StoreError::InvalidReference);
    }
    match position_of(&store.events, event.id.as_str()) {
        Some(i) => {
            let ghost was = store.events@[i as int]@;
            assert(store@.events[i as int] == was);
            let mut kept = event;
            kept.created_at = copy_text(&store.events[i].created_at);
            kept.member_name = copy_opt_text(&store.events[i].member_name);
            let ghost value = kept@;
            store.events[i] = kept;
            assert(store@.events =~= old(store)@.events.update(i as int, value));
            assert(store@.events[i as int] == store.events@[i as int]@);
            Ok(event_joined(members, &store.events[i]))
        },
        None => Err(StoreError::NotFound),
    }
}

/// The store without the calendar entry at position `i`.
pub open spec fn without_event(s: LogbookView, i: int) -> LogbookView {
    LogbookView { events: s.events.remove(i), ..s }
}

/// Removes the calendar entry with the id `id`.
///
/// Never refused: where the logbook holds no calendar entry with the id, nothing changes.
pub fn calendar_events_delete(store: &mut LogbookStore, id: String) -> (r: Result<(), StoreError>)
    ensures
        r is Ok,
        find_id(event_ids(old(store)@), id@) is None ==> final(store)@ == old(store)@,
        find_id(event_ids(old(store)@), id@) is Some ==> final(store)@ == without_event(
            old(store)@,
            find_id(event_ids(old(store)@), id@)->0,
        ),
{
    proof {
        assert(idents(store.events@) =~= event_ids(store@));
        lemma_find_id(event_ids(store@), id@);
    }
    let _ = drop_record(&mut store.events, id.as_str());
    Ok(())
}

/// Removes the calendar entries of the member `member_id`, as after the member
/// has left the band.
pub fn calendar_forget_member(store: &mut LogbookStore, member_id: &str)
    ensures
        final(store)@ == (LogbookView {
            events: values(
                without_owner(old(store).events@, member_id@, old(store).events@.len()),
            ),
            ..old(store)@
        }),
{
    drop_owned(&mut store.events, member_id);
}

} // verus!
