//! What hangs on a gig: its checklists with their items and the notes of its
//! contacts. Removing a gig or a checklist removes what hangs on it.

use vstd::prelude::*;
use crate::ids::{fresh_id, is_hyphenated_id, none_fresh, time_stamp};
use crate::logbook::{
    checklist_key, contact_key, gig_ids, item_key, lemma_logbook_idents, LogbookStore,
    LogbookView,
};
use crate::logbook_model::{
    checklist_item_of, checklist_of, contact_of, ChecklistItem, ChecklistItemPayload,
    ChecklistItemValue, GigChecklist, GigChecklistPayload, GigChecklistValue, GigContact,
    GigContactPayload, GigContactValue,
};
use crate::ordering::OrderKeyView;
use crate::store::{
    find_id, idents, lemma_find_id, listing_keys, position_of, refused, StoreError,
};
use crate::tables::{
    add_record, drop_owned, drop_record, select, selected, values, without_owner,
};
use crate::text::{copy_text, is_same_text};

verus! {

/// The ids of the checklists, in store order.
pub open spec fn checklist_ids(s: LogbookView) -> Seq<Seq<char>> {
    Seq::new(s.checklists.len(), |i: int| s.checklists[i].id)
}

/// The ids of the checklist items, in store order.
pub open spec fn item_ids(s: LogbookView) -> Seq<Seq<char>> {
    Seq::new(s.items.len(), |i: int| s.items[i].id)
}

/// The ids of the contact notes, in store order.
pub open spec fn contact_ids(s: LogbookView) -> Seq<Seq<char>> {
    Seq::new(s.contacts.len(), |i: int| s.contacts[i].id)
}

/// The ids of the store's lists are the ids of its records.
pub proof fn lemma_checklist_idents(store: &LogbookStore)
    ensures
        idents(store.gigs@) == gig_ids(store@),
        idents(store.checklists@) == checklist_ids(store@),
        idents(store.items@) == item_ids(store@),
        idents(store.contacts@) == contact_ids(store@),
{
    lemma_logbook_idents(store);
    assert(idents(store.checklists@) =~= checklist_ids(store@));
    assert(idents(store.items@) =~= item_ids(store@));
    assert(idents(store.contacts@) =~= contact_ids(store@));
}

// -------------------------------------------------------------- checklists

/// The listing keys of the checklists, in store order.
pub open spec fn checklist_keys(s: LogbookView) -> Seq<OrderKeyView> {
    Seq::new(s.checklists.len(), |i: int| checklist_key(s.checklists[i]))
}

/// The mask of the checklists of the gig `gig`.
pub open spec fn checklists_of(s: LogbookView, gig: Seq<char>) -> Seq<bool> {
    Seq::new(s.checklists.len(), |i: int| s.checklists[i].gig_id == gig)
}

/// The checklists of the gig `gig_id` in the order in which they were made.
pub fn gig_checklists_get_by_gig(store: &LogbookStore, gig_id: String) -> (r: Vec<GigChecklist>)
    ensures
        r.deep_view() == selected(
            store@.checklists,
            checklist_keys(store@),
            checklists_of(store@, gig_id@),
            false,
        ),
{
    let mut mask: Vec<bool> = Vec::new();
    let mut i: usize = 0;
    while i < store.checklists.len()
        invariant
            i <= store@.checklists.len(),
            mask@.len() == i,
            forall|j: int| 0 <= j < i ==> mask@[j] == (store@.checklists[j].gig_id == gig_id@),
        decreases store@.checklists.len() - i,
    {
        assert(store@.checklists[i as int] == store.checklists@[i as int]@);
        mask.push(is_same_text(store.checklists[i].gig_id.as_str(), gig_id.as_str()));
        i = i + 1;
    }
    assert(mask@ =~= checklists_of(store@, gig_id@));
    assert(listing_keys(store.checklists@) =~= checklist_keys(store@));
    select(&store.checklists, &mask, false)
}

/// The store with one more checklist at the end.
pub open spec fn with_checklist(s: LogbookView, c: GigChecklistValue) -> LogbookView {
    LogbookView { checklists: s.checklists.push(c), ..s }
}

/// Adds the checklist that `payload` describes under the id `id`, made at
/// `created_at`.
///
/// Refused with `InvalidReference` where the logbook does not hold the gig that
/// the payload names, and else with `DuplicateId` where it already holds a
/// checklist with the id.
pub fn gig_checklists_insert(
    store: &mut LogbookStore,
    id: String,
    created_at: String,
    payload: GigChecklistPayload,
) -> (r: Result<GigChecklist, StoreError>)
    ensures
        !gig_ids(old(store)@).contains(payload.gig_id@) ==> refused(
            r,
            StoreError::InvalidReference,
        ),
        gig_ids(old(store)@).contains(payload.gig_id@) && checklist_ids(old(store)@).contains(id@)
            ==> refused(r, StoreError::DuplicateId),
        gig_ids(old(store)@).contains(payload.gig_id@) && !checklist_ids(old(store)@).contains(
            id@,
        ) ==> r is Ok,
        r matches Ok(c) ==> c@ == checklist_of(id@, created_at@, payload) && final(store)@
            == with_checklist(old(store)@, c@),
        r is Err ==> final(store)@ == old(store)@,
{
    proof {
        lemma_checklist_idents(store);
        lemma_find_id(gig_ids(store@), payload.gig_id@);
    }
    if position_of(&store.gigs, payload.gig_id.as_str()).is_none() {
        return Err(StoreError::InvalidReference);
    }
    let list = GigChecklist::from_payload(id, created_at, payload);
    let out = list.copy();
    match add_record(&mut store.checklists, list) {
        Ok(()) => Ok(out),
        Err(e) => Err(e),
    }
}

/// Adds the checklist that `payload` describes under a fresh id, made now.
///
/// Refused with `InvalidReference` where the logbook does not hold the gig that
/// the payload names, and else with `DuplicateId` where the fresh id is that of
/// a checklist of the logbook.
///
/// Which fresh id is drawn is not known beforehand. Where no id of that kind in
/// the store has the shape of a fresh id, none can be taken, and the call
/// succeeds unless it is refused for what the payload names.
pub fn gig_checklists_create(store: &mut LogbookStore, payload: GigChecklistPayload) -> (r: Result<
    GigChecklist,
    StoreError,
>)
    ensures
        !gig_ids(old(store)@).contains(payload.gig_id@) ==> refused(
            r,
            StoreError::InvalidReference,
        ),
        gig_ids(old(store)@).contains(payload.gig_id@) && none_fresh(checklist_ids(old(store)@))
            ==> r is Ok,
        r matches Err(e) ==> (e == StoreError::InvalidReference && !gig_ids(old(store)@).contains(
            payload.gig_id@,
        )) || (e == StoreError::DuplicateId && gig_ids(old(store)@).contains(payload.gig_id@)),
        r matches Ok(c) ==> is_hyphenated_id(c@.id) && !checklist_ids(old(store)@).contains(c@.id)
            && c@ == checklist_of(c@.id, c@.created_at, payload) && final(store)@
            == with_checklist(old(store)@, c@),
        r is Err ==> final(store)@ == old(store)@,
{
    gig_checklists_insert(store, fresh_id(), time_stamp(), payload)
}

/// The store without the checklist at position `i` and without its items.
pub open spec fn without_checklist(store: LogbookStore, i: int) -> LogbookView {
    LogbookView {
        checklists: store@.checklists.remove(i),
        items: values(without_owner(store.items@, store.checklists@[i].id@, store.items@.len())),
        ..store@
    }
}

/// Removes the checklist with the id `id` and its items.
///
/// Never refused: where the logbook holds no checklist with the id, nothing changes.
pub fn gig_checklists_delete(store: &mut LogbookStore, id: String) -> (r: Result<(), StoreError>)
    ensures
        r is Ok,
        find_id(checklist_ids(old(store)@), id@) is None ==> final(store)@ == old(store)@,
        find_id(checklist_ids(old(store)@), id@) is Some ==> final(store)@
            == without_checklist(*old(store), find_id(checklist_ids(old(store)@), id@)->0),
{
    proof {
        lemma_checklist_idents(store);
        lemma_find_id(checklist_ids(store@), id@);
    }
    match drop_record(&mut store.checklists, id.as_str()) {
        Ok(()) => {
            drop_owned(&mut store.items, id.as_str());
            Ok(())
        },
        Err(e) => Ok(()),
    }
}

// ------------------------------------------------------------------- items

/// The listing keys of the checklist items, in store order.
pub open spec fn item_keys(s: LogbookView) -> Seq<OrderKeyView> {
    Seq::new(s.items.len(), |i: int| item_key(s.items[i]))
}

/// The mask of the items of the checklist `list`.
pub open spec fn items_of(s: LogbookView, list: Seq<char>) -> Seq<bool> {
    Seq::new(s.items.len(), |i: int| s.items[i].checklist_id == list)
}

/// The items of the checklist `checklist_id` by sort order, then by category.
pub fn checklist_get_by_list(store: &LogbookStore, checklist_id: String) -> (r: Vec<ChecklistItem>)
    ensures
        r.deep_view() == selected(
            store@.items,
            item_keys(store@),
            items_of(store@, checklist_id@),
            false,
        ),
{
    let mut mask: Vec<bool> = Vec::new();
    let mut i: usize = 0;
    while i < store.items.len()
        invariant
            i <= store@.items.len(),
            mask@.len() == i,
            forall|j: int|
                0 <= j < i ==> mask@[j] == (store@.items[j].checklist_id == checklist_id@),
        decreases store@.items.len() - i,
    {
        assert(store@.items[i as int] == store.items@[i as int]@);
        mask.push(is_same_text(store.items[i].checklist_id.as_str(), checklist_id.as_str()));
        i = i + 1;
    }
    assert(mask@ =~= items_of(store@, checklist_id@));
    assert(listing_keys(store.items@) =~= item_keys(store@));
    select(&store.items, &mask, false)
}

/// The store with one more checklist item at the end.
pub open spec fn with_item(s: LogbookView, i: ChecklistItemValue) -> LogbookView {
    LogbookView { items: s.items.push(i), ..s }
}

/// Adds the item that `payload` describes under the id `id`.
///
/// Refused with `InvalidReference` where the logbook does not hold the
/// checklist that the payload names, and else with `DuplicateId` where it
/// already holds an item with the id.
pub fn checklist_insert(store: &mut LogbookStore, id: String, payload: ChecklistItemPayload) -> (r:
    Result<ChecklistItem, StoreError>)
    ensures
        !checklist_ids(old(store)@).contains(payload.checklist_id@) ==> refused(
            r,
            StoreError::InvalidReference,
        ),
        checklist_ids(old(store)@).contains(payload.checklist_id@) && item_ids(
            old(store)@,
        ).contains(id@) ==> refused(r, StoreError::DuplicateId),
        checklist_ids(old(store)@).contains(payload.checklist_id@) && !item_ids(
            old(store)@,
        ).contains(id@) ==> r is Ok,
        r matches Ok(i) ==> i@ == checklist_item_of(id@, payload) && final(store)@ == with_item(
            old(store)@,
            i@,
        ),
        r is Err ==> final(store)@ == old(store)@,
{
    proof {
        lemma_checklist_idents(store);
        lemma_find_id(checklist_ids(store@), payload.checklist_id@);
    }
    if position_of(&store.checklists, payload.checklist_id.as_str()).is_none() {
        return Err(StoreError::InvalidReference);
    }
    let item = ChecklistItem::from_payload(id, payload);
    let out = item.copy();
    match add_record(&mut store.items, item) {
        Ok(()) => Ok(out),
        Err(e) => Err(e),
    }
}

/// Adds the item that `payload` describes under a fresh id.
///
/// Refused with `InvalidReference` where the logbook does not hold the
/// checklist that the payload names, and else with `DuplicateId` where the
/// fresh id is that of an item of the logbook.
///
/// Which fresh id is drawn is not known beforehand. Where no id of that kind in
/// the store has the shape of a fresh id, none can be taken, and the call
/// succeeds unless it is refused for what the payload names.
pub fn checklist_create(store: &mut LogbookStore, payload: ChecklistItemPayload) -> (r: Result<
    ChecklistItem,
    StoreError,
>)
    ensures
        !checklist_ids(old(store)@).contains(payload.checklist_id@) ==> refused(
            r,
            StoreError::InvalidReference,
        ),
        checklist_ids(old(store)@).contains(payload.checklist_id@) && none_fresh(
            item_ids(old(store)@),
        ) ==> r is Ok,
        r matches Err(e) ==> (e == StoreError::InvalidReference && !checklist_ids(
            old(store)@,
        ).contains(payload.checklist_id@)) || (e == StoreError::DuplicateId && checklist_ids(
            old(store)@,
        ).contains(payload.checklist_id@)),
        r matches Ok(i) ==> is_hyphenated_id(i@.id) && !item_ids(old(store)@).contains(i@.id)
            && i@ == checklist_item_of(i@.id, payload) && final(store)@ == with_item(
            old(store)@,
            i@,
        ),
        r is Err ==> final(store)@ == old(store)@,
{
    checklist_insert(store, fresh_id(), payload)
}

/// The item `new` as it is stored in place of `old`: on the checklist of `old`.
pub open spec fn item_kept(old: ChecklistItemValue, new: ChecklistItemValue) -> ChecklistItemValue {
    ChecklistItemValue { checklist_id: old.checklist_id, ..new }
}

/// The store with the item at position `i` replaced by `item`.
pub open spec fn with_item_at(s: LogbookView, i: int, item: ChecklistItemValue) -> LogbookView {
    LogbookView { items: s.items.update(i, item_kept(s.items[i], item)), ..s }
}

/// Replaces the item that has the id of `item` by `item`; the item stays on its
/// checklist. Hands `item` back. Never refused: where the logbook holds no item
/// with the id, nothing changes.
pub fn checklist_update(store: &mut LogbookStore, item: ChecklistItem) -> (r: Result<
    ChecklistItem,
    StoreError,
>)
    ensures
        r matches Ok(i) && i@ == item@,
        find_id(item_ids(old(store)@), item@.id) is None ==> final(store)@ == old(store)@,
        find_id(item_ids(old(store)@), item@.id) is Some ==> final(store)@ == with_item_at(
            old(store)@,
            find_id(item_ids(old(store)@), item@.id)->0,
            item@,
        ),
{
    proof {
        lemma_checklist_idents(store);
    }
    match position_of(&store.items, item.id.as_str()) {
        Some(i) => {
            let ghost was = store.items@[i as int]@;
            assert(store@.items[i as int] == was);
            let mut kept = item.copy();
            kept.checklist_id = copy_text(&store.items[i].checklist_id);
            let ghost value = kept@;
            store.items[i] = kept;
            assert(store@.items =~= old(store)@.items.update(i as int, value));
            Ok(item)
        },
        None => Ok(item),
    }
}

/// The store without the item at position `i`.
pub open spec fn without_item(s: LogbookView, i: int) -> LogbookView {
    LogbookView { items: s.items.remove(i), ..s }
}

/// Removes the item with the id `id`.
///
/// Never refused: where the logbook holds no item with the id, nothing changes.
pub fn checklist_delete(store: &mut LogbookStore, id: String) -> (r: Result<(), StoreError>)
    ensures
        r is Ok,
        find_id(item_ids(old(store)@), id@) is None ==> final(store)@ == old(store)@,
        find_id(item_ids(old(store)@), id@) is Some ==> final(store)@ == without_item(
            old(store)@,
            find_id(item_ids(old(store)@), id@)->0,
        ),
{
    proof {
        lemma_checklist_idents(store);
        lemma_find_id(item_ids(store@), id@);
    }
    let _ = drop_record(&mut store.items, id.as_str());
    Ok(())
}

/// An item as not done, if it is on the checklist `list`.
pub open spec fn item_reset(i: ChecklistItemValue, list: Seq<char>) -> ChecklistItemValue {
    if i.checklist_id == list {
        ChecklistItemValue { done: false, ..i }
    } else {
        i
    }
}

/// The store with every item of the checklist `list` not done.
pub open spec fn with_list_reset(s: LogbookView, list: Seq<char>) -> LogbookView {
    LogbookView { items: Seq::new(s.items.len(), |j: int| item_reset(s.items[j], list)), ..s }
}

/// Marks every item of the checklist `checklist_id` as not done. Never refused:
/// where no item is on such a checklist, nothing changes.
pub fn checklist_reset_done_by_list(store: &mut LogbookStore, checklist_id: String) -> (r: Result<
    (),
    StoreError,
>)
    ensures
        r is Ok,
        final(store)@ == with_list_reset(old(store)@, checklist_id@),
{
    let ghost before = store@;
    let mut i: usize = 0;
    while i < store.items.len()
        invariant
            i <= store@.items.len(),
            store@.items.len() == before.items.len(),
            store@.venues == before.venues,
            store@.gigs == before.gigs,
            store@.events == before.events,
            store@.checklists == before.checklists,
            store@.contacts == before.contacts,
            forall|j: int|
                0 <= j < i ==> #[trigger] store@.items[j] == item_reset(
                    before.items[j],
                    checklist_id@,
                ),
            forall|j: int|
                i <= j < before.items.len() ==> #[trigger] store@.items[j] == before.items[j],
        decreases store@.items.len() - i,
    {
        let ghost prev = store.items@;
        let ghost mid = store@;
        assert(mid.items[i as int] == prev[i as int]@);
        if is_same_text(store.items[i].checklist_id.as_str(), checklist_id.as_str()) {
            store.items[i].done = false;
        }
        proof {
            let now = store.items@;
            assert(forall|j: int| 0 <= j < prev.len() && j != i ==> now[j] == prev[j]);
            assert forall|j: int| 0 <= j < prev.len() && j != i implies #[trigger] store@.items[j]
                == mid.items[j] by {
                assert(store@.items[j] == now[j]@);
                assert(mid.items[j] == prev[j]@);
            }
            assert(store@.items[i as int] == now[i as int]@);
        }
        i = i + 1;
    }
    assert(store@.items =~= with_list_reset(before, checklist_id@).items);
    Ok(())
}

// ---------------------------------------------------------------- contacts

/// The listing keys of the contact notes, in store order.
pub open spec fn contact_keys(s: LogbookView) -> Seq<OrderKeyView> {
    Seq::new(s.contacts.len(), |i: int| contact_key(s.contacts[i]))
}

/// The mask of the contact notes of the gig `gig`.
pub open spec fn contacts_of(s: LogbookView, gig: Seq<char>) -> Seq<bool> {
    Seq::new(s.contacts.len(), |i: int| s.contacts[i].gig_id == gig)
}

/// The contact notes of the gig `gig_id`, latest date first, notes of one date
/// latest made first.
pub fn gig_contacts_get_by_gig(store: &LogbookStore, gig_id: String) -> (r: Vec<GigContact>)
    ensures
        r.deep_view() == selected(
            store@.contacts,
            contact_keys(store@),
            contacts_of(store@, gig_id@),
            true,
        ),
{
    let mut mask: Vec<bool> = Vec::new();
    let mut i: usize = 0;
    while i < store.contacts.len()
        invariant
            i <= store@.contacts.len(),
            mask@.len() == i,
            forall|j: int| 0 <= j < i ==> mask@[j] == (store@.contacts[j].gig_id == gig_id@),
        decreases store@.contacts.len() - i,
    {
        assert(store@.contacts[i as int] == store.contacts@[i as int]@);
        mask.push(is_same_text(store.contacts[i].gig_id.as_str(), gig_id.as_str()));
        i = i + 1;
    }
    assert(mask@ =~= contacts_of(store@, gig_id@));
    assert(listing_keys(store.contacts@) =~= contact_keys(store@));
    select(&store.contacts, &mask, true)
}

/// The store with one more contact note at the end.
pub open spec fn with_contact(s: LogbookView, c: GigContactValue) -> LogbookView {
    LogbookView { contacts: s.contacts.push(c), ..s }
}

/// Adds the contact note that `payload` describes under the id `id`, made at
/// `created_at`.
///
/// Refused with `InvalidReference` where the logbook does not hold the gig that
/// the payload names, and else with `DuplicateId` where it already holds a
/// contact note with the id.
pub fn gig_contacts_insert(
    store: &mut LogbookStore,
    id: String,
    created_at: String,
    payload: GigContactPayload,
) -> (r: Result<GigContact, StoreError>)
    ensures
        !gig_ids(old(store)@).contains(payload.gig_id@) ==> refused(
            r,
            StoreError::InvalidReference,
        ),
        gig_ids(old(store)@).contains(payload.gig_id@) && contact_ids(old(store)@).contains(id@)
            ==> refused(r, StoreError::DuplicateId),
        gig_ids(old(store)@).contains(payload.gig_id@) && !contact_ids(old(store)@).contains(id@)
            ==> r is Ok,
        r matches Ok(c) ==> c@ == contact_of(id@, created_at@, payload) && final(store)@
            == with_contact(old(store)@, c@),
        r is Err ==> final(store)@ == old(store)@,
{
    proof {
        lemma_checklist_idents(store);
        lemma_find_id(gig_ids(store@), payload.gig_id@);
    }
    if position_of(&store.gigs, payload.gig_id.as_str()).is_none() {
        return Err(StoreError::InvalidReference);
    }
    let contact = GigContact::from_payload(id, created_at, payload);
    let out = contact.copy();
    match add_record(&mut store.contacts, contact) {
        Ok(()) => Ok(out),
        Err(e) => Err(e),
    }
}

/// Adds the contact note that `payload` describes under a fresh id, made now.
///
/// Refused with `InvalidReference` where the logbook does not hold the gig that
/// the payload names, and else with `DuplicateId` where the fresh id is that of
/// a contact note of the logbook.
///
/// Which fresh id is drawn is not known beforehand. Where no id of that kind in
/// the store has the shape of a fresh id, none can be taken, and the call
/// succeeds unless it is refused for what the payload names.
pub fn gig_contacts_create(store: &mut LogbookStore, payload: GigContactPayload) -> (r: Result<
    GigContact,
    StoreError,
>)
    ensures
        !gig_ids(old(store)@).contains(payload.gig_id@) ==> refused(
            r,
            StoreError::InvalidReference,
        ),
        gig_ids(old(store)@).contains(payload.gig_id@) && none_fresh(contact_ids(old(store)@))
            ==> r is Ok,
        r matches Err(e) ==> (e == StoreError::InvalidReference && !gig_ids(old(store)@).contains(
            payload.gig_id@,
        )) || (e == StoreError::DuplicateId && gig_ids(old(store)@).contains(payload.gig_id@)),
        r matches Ok(c) ==> is_hyphenated_id(c@.id) && !contact_ids(old(store)@).contains(c@.id)
            && c@ == contact_of(c@.id, c@.created_at, payload) && final(store)@ == with_contact(
            old(store)@,
            c@,
        ),
        r is Err ==> final(store)@ == old(store)@,
{
    gig_contacts_insert(store, fresh_id(), time_stamp(), payload)
}

/// The store without the contact note at position `i`.
pub open spec fn without_contact(s: LogbookView, i: int) -> LogbookView {
    LogbookView { contacts: s.contacts.remove(i), ..s }
}

/// Removes the contact note with the id `id`.
///
/// Never refused: where the logbook holds no contact note with the id, nothing changes.
pub fn gig_contacts_delete(store: &mut LogbookStore, id: String) -> (r: Result<(), StoreError>)
    ensures
        r is Ok,
        find_id(contact_ids(old(store)@), id@) is None ==> final(store)@ == old(store)@,
        find_id(contact_ids(old(store)@), id@) is Some ==> final(store)@
            == without_contact(old(store)@, find_id(contact_ids(old(store)@), id@)->0),
{
    proof {
        lemma_checklist_idents(store);
        lemma_find_id(contact_ids(store@), id@);
    }
    let _ = drop_record(&mut store.contacts, id.as_str());
    Ok(())
}

// -------------------------------------------------------- removing a gig

/// Whether `list` is the id of a checklist of the gig `gig`.
pub open spec fn is_list_of(lists: Seq<GigChecklistValue>, gig: Seq<char>, list: Seq<char>) -> bool {
    exists|j: int|
        0 <= j < lists.len() && (#[trigger] lists[j]).id == list && lists[j].gig_id == gig
}

/// The items among the first `n` that are on no checklist of the gig `gig`.
pub open spec fn items_outside(
    items: Seq<ChecklistItemValue>,
    lists: Seq<GigChecklistValue>,
    gig: Seq<char>,
    n: nat,
) -> Seq<ChecklistItemValue>
    decreases n,
{
    if n == 0 {
        Seq::empty()
    } else {
        let rest = items_outside(items, lists, gig, (n - 1) as nat);
        if is_list_of(lists, gig, items[n - 1].checklist_id) {
            rest
        } else {
            rest.push(items[n - 1])
        }
    }
}

/// The store without the gig at position `i`, without its checklists and their
/// items, and without the notes of its contacts.
pub open spec fn without_gig(store: LogbookStore, i: int) -> LogbookView {
    let s = store@;
    let gig = s.gigs[i].id;
    LogbookView {
        venues: s.venues,
        gigs: s.gigs.remove(i),
        events: s.events,
        checklists: values(without_owner(store.checklists@, gig, store.checklists@.len())),
        items: items_outside(s.items, s.checklists, gig, s.items.len()),
        contacts: values(without_owner(store.contacts@, gig, store.contacts@.len())),
    }
}

/// Whether `list` is the id of a checklist of the gig `gig`.
fn list_belongs_to(store: &LogbookStore, gig: &str, list: &str) -> (r: bool)
    ensures
        r == is_list_of(store@.checklists, gig@, list@),
{
    let mut j: usize = 0;
    while j < store.checklists.len()
        invariant
            j <= store@.checklists.len(),
            forall|k: int|
                0 <= k < j ==> !((#[trigger] store@.checklists[k]).id == list@
                    && store@.checklists[k].gig_id == gig@),
        decreases store@.checklists.len() - j,
    {
        assert(store@.checklists[j as int] == store.checklists@[j as int]@);
        if is_same_text(store.checklists[j].id.as_str(), list) && is_same_text(
            store.checklists[j].gig_id.as_str(),
            gig,
        ) {
            return true;
        }
        j = j + 1;
    }
    false
}

/// Removes the gig with the id `id`, its checklists with their items, and the
/// notes of its contacts.
///
/// Never refused: where the logbook holds no gig with the id, nothing changes.
pub fn gigs_delete(store: &mut LogbookStore, id: String) -> (r: Result<(), StoreError>)
    ensures
        r is Ok,
        find_id(gig_ids(old(store)@), id@) is None ==> final(store)@ == old(store)@,
        find_id(gig_ids(old(store)@), id@) is Some ==> final(store)@ == without_gig(
            *old(store),
            find_id(gig_ids(old(store)@), id@)->0,
        ),
{
    proof {
        lemma_checklist_idents(store);
        lemma_find_id(gig_ids(store@), id@);
    }
    if position_of(&store.gigs, id.as_str()).is_none() {
        return Ok(());
    }
    let ghost before = store@;
    let mut kept: Vec<ChecklistItem> = Vec::new();
    let mut k: usize = 0;
    assert(kept.deep_view() =~= items_outside(before.items, before.checklists, id@, 0));
    while k < store.items.len()
        invariant
            k <= store@.items.len(),
            store@ == before,
            *store == *old(store),
            kept.deep_view() == items_outside(before.items, before.checklists, id@, k as nat),
        decreases store@.items.len() - k,
    {
        let ghost had = kept.deep_view();
        let item = &store.items[k];
        assert(store@.items[k as int] == item@);
        if !list_belongs_to(store, id.as_str(), item.checklist_id.as_str()) {
            kept.push(item.copy());
            assert(kept.deep_view() =~= had.push(item@));
        }
        k = k + 1;
    }
    store.items = kept;
    drop_owned(&mut store.checklists, id.as_str());
    drop_owned(&mut store.contacts, id.as_str());
    let dropped = drop_record(&mut store.gigs, id.as_str());
    assert(dropped is Ok);
    Ok(())
}

} // verus!
