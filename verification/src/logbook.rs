//! The logbook: venues and gigs.
//!
//! Removing a venue leaves its gigs without a venue. Removing a gig removes its
//! checklists with their items and the notes of its contacts.

use vstd::prelude::*;
use crate::ids::{fresh_id, is_hyphenated_id, none_fresh, time_stamp};
use crate::logbook_model::{
    gig_of, venue_of, CalendarEvent, CalendarEventValue, ChecklistItem, ChecklistItemValue, Gig,
    GigChecklist, GigChecklistValue, GigContact, GigContactValue, GigPayload, GigValue, Venue,
    VenuePayload, VenueValue,
};
use crate::ordering::{OrderKey, OrderKeyView};
use crate::store::{
    find_id, idents, lemma_find_id, listing_keys, position_of, refused, Record, StoreError,
};
use crate::tables::{add_record, drop_record, mark_all, select, selected, Owned};
use crate::text::{copy_opt_text, copy_text, is_same_text};

verus! {

/// The listing key of a venue: its name.
pub open spec fn venue_key(v: VenueValue) -> OrderKeyView {
    OrderKeyView { group: 0, order: 0, name: v.name, tie: Seq::empty() }
}

/// The listing key of a gig: its date, gigs without a date first.
pub open spec fn gig_key(g: GigValue) -> OrderKeyView {
    match g.date {
        Some(d) => OrderKeyView { group: 1, order: 0, name: d, tie: Seq::empty() },
        None => OrderKeyView { group: 0, order: 0, name: Seq::empty(), tie: Seq::empty() },
    }
}

/// The listing key of a calendar entry: its date.
pub open spec fn event_key(e: CalendarEventValue) -> OrderKeyView {
    OrderKeyView { group: 0, order: 0, name: e.date, tie: Seq::empty() }
}

/// The listing key of a checklist: the moment it was made.
pub open spec fn checklist_key(c: GigChecklistValue) -> OrderKeyView {
    OrderKeyView { group: 0, order: 0, name: c.created_at, tie: Seq::empty() }
}

/// The listing key of a checklist item: its sort order, then its category.
pub open spec fn item_key(i: ChecklistItemValue) -> OrderKeyView {
    OrderKeyView { group: 0, order: i.sort_order, name: i.category, tie: Seq::empty() }
}

/// The listing key of a contact note: its date, then the moment it was made.
pub open spec fn contact_key(c: GigContactValue) -> OrderKeyView {
    OrderKeyView { group: 0, order: 0, name: c.date, tie: c.created_at }
}

impl Record for Venue {
    open spec fn ident(&self) -> Seq<char> {
        self.id@
    }

    open spec fn listing_key(&self) -> OrderKeyView {
        venue_key(self@)
    }

    fn id_text(&self) -> (r: &String) {
        &self.id
    }

    fn order_key(&self) -> (r: OrderKey) {
        OrderKey { group: 0, order: 0, name: copy_text(&self.name), tie: String::new() }
    }

    fn duplicate(&self) -> (r: Self) {
        self.copy()
    }
}

impl Record for Gig {
    open spec fn ident(&self) -> Seq<char> {
        self.id@
    }

    open spec fn listing_key(&self) -> OrderKeyView {
        gig_key(self@)
    }

    fn id_text(&self) -> (r: &String) {
        &self.id
    }

    fn order_key(&self) -> (r: OrderKey) {
        match &self.date {
            Some(d) => OrderKey { group: 1, order: 0, name: copy_text(d), tie: String::new() },
            None => OrderKey { group: 0, order: 0, name: String::new(), tie: String::new() },
        }
    }

    fn duplicate(&self) -> (r: Self) {
        self.copy()
    }
}

impl Record for CalendarEvent {
    open spec fn ident(&self) -> Seq<char> {
        self.id@
    }

    open spec fn listing_key(&self) -> OrderKeyView {
        event_key(self@)
    }

    fn id_text(&self) -> (r: &String) {
        &self.id
    }

    fn order_key(&self) -> (r: OrderKey) {
        OrderKey { group: 0, order: 0, name: copy_text(&self.date), tie: String::new() }
    }

    fn duplicate(&self) -> (r: Self) {
        self.copy()
    }
}

impl Record for GigChecklist {
    open spec fn ident(&self) -> Seq<char> {
        self.id@
    }

    open spec fn listing_key(&self) -> OrderKeyView {
        checklist_key(self@)
    }

    fn id_text(&self) -> (r: &String) {
        &self.id
    }

    fn order_key(&self) -> (r: OrderKey) {
        OrderKey { group: 0, order: 0, name: copy_text(&self.created_at), tie: String::new() }
    }

    fn duplicate(&self) -> (r: Self) {
        self.copy()
    }
}

impl Record for ChecklistItem {
    open spec fn ident(&self) -> Seq<char> {
        self.id@
    }

    open spec fn listing_key(&self) -> OrderKeyView {
        item_key(self@)
    }

    fn id_text(&self) -> (r: &String) {
        &self.id
    }

    fn order_key(&self) -> (r: OrderKey) {
        OrderKey {
            group: 0,
            order: self.sort_order,
            name: copy_text(&self.category),
            tie: String::new(),
        }
    }

    fn duplicate(&self) -> (r: Self) {
        self.copy()
    }
}

impl Record for GigContact {
    open spec fn ident(&self) -> Seq<char> {
        self.id@
    }

    open spec fn listing_key(&self) -> OrderKeyView {
        contact_key(self@)
    }

    fn id_text(&self) -> (r: &String) {
        &self.id
    }

    fn order_key(&self) -> (r: OrderKey) {
        OrderKey {
            group: 0,
            order: 0,
            name: copy_text(&self.date),
            tie: copy_text(&self.created_at),
        }
    }

    fn duplicate(&self) -> (r: Self) {
        self.copy()
    }
}

impl Owned for CalendarEvent {
    open spec fn owner(&self) -> Option<Seq<char>> {
        self.member_id.deep_view()
    }

    fn is_owned_by(&self, id: &str) -> (r: bool) {
        match &self.member_id {
            Some(m) => is_same_text(m.as_str(), id),
            None => false,
        }
    }
}

impl Owned for GigChecklist {
    open spec fn owner(&self) -> Option<Seq<char>> {
        Some(self.gig_id@)
    }

    fn is_owned_by(&self, id: &str) -> (r: bool) {
        is_same_text(self.gig_id.as_str(), id)
    }
}

impl Owned for ChecklistItem {
    open spec fn owner(&self) -> Option<Seq<char>> {
        Some(self.checklist_id@)
    }

    fn is_owned_by(&self, id: &str) -> (r: bool) {
        is_same_text(self.checklist_id.as_str(), id)
    }
}

impl Owned for GigContact {
    open spec fn owner(&self) -> Option<Seq<char>> {
        Some(self.gig_id@)
    }

    fn is_owned_by(&self, id: &str) -> (r: bool) {
        is_same_text(self.gig_id.as_str(), id)
    }
}

/// The venues, the gigs, the calendar, the checklists of the gigs with their
/// items, and the notes of contacts.
#[derive(Clone, Debug, PartialEq, Eq)]
pub struct LogbookStore {
    pub venues: Vec<Venue>,
    pub gigs: Vec<Gig>,
    pub events: Vec<CalendarEvent>,
    pub checklists: Vec<GigChecklist>,
    pub items: Vec<ChecklistItem>,
    pub contacts: Vec<GigContact>,
}

/// Mathematical value of a [`LogbookStore`].
pub struct LogbookView {
    pub venues: Seq<VenueValue>,
    pub gigs: Seq<GigValue>,
    pub events: Seq<CalendarEventValue>,
    pub checklists: Seq<GigChecklistValue>,
    pub items: Seq<ChecklistItemValue>,
    pub contacts: Seq<GigContactValue>,
}

impl View for LogbookStore {
    type V = LogbookView;

    open spec fn view(&self) -> LogbookView {
        LogbookView {
            venues: self.venues.deep_view(),
            gigs: self.gigs.deep_view(),
            events: self.events.deep_view(),
            checklists: self.checklists.deep_view(),
            items: self.items.deep_view(),
            contacts: self.contacts.deep_view(),
        }
    }
}

impl LogbookStore {
    /// A logbook without records.
    pub fn new() -> (r: LogbookStore)
        ensures
            r@.venues.len() == 0,
            r@.gigs.len() == 0,
            r@.events.len() == 0,
            r@.checklists.len() == 0,
            r@.items.len() == 0,
            r@.contacts.len() == 0,
    {
        LogbookStore {
            venues: Vec::new(),
            gigs: Vec::new(),
            events: Vec::new(),
            checklists: Vec::new(),
            items: Vec::new(),
            contacts: Vec::new(),
        }
    }
}

/// The ids of the venues, in store order.
pub open spec fn venue_ids(s: LogbookView) -> Seq<Seq<char>> {
    Seq::new(s.venues.len(), |i: int| s.venues[i].id)
}

/// The ids of the gigs, in store order.
pub open spec fn gig_ids(s: LogbookView) -> Seq<Seq<char>> {
    Seq::new(s.gigs.len(), |i: int| s.gigs[i].id)
}

/// The ids of the store's venues and gigs are the ids of its records.
pub proof fn lemma_logbook_idents(store: &LogbookStore)
    ensures
        idents(store.venues@) == venue_ids(store@),
        idents(store.gigs@) == gig_ids(store@),
{
    assert(idents(store.venues@) =~= venue_ids(store@));
    assert(idents(store.gigs@) =~= gig_ids(store@));
}

// ------------------------------------------------------------------ venues

/// The listing keys of the venues, in store order.
pub open spec fn venue_keys(s: LogbookView) -> Seq<OrderKeyView> {
    Seq::new(s.venues.len(), |i: int| venue_key(s.venues[i]))
}

/// A mask of `n` places that marks them all.
pub open spec fn all_marked(n: nat) -> Seq<bool> {
    Seq::new(n, |i: int| true)
}

/// The venues by name.
pub fn venues_get_all(store: &LogbookStore) -> (r: Vec<Venue>)
    ensures
        r.deep_view() == selected(
            store@.venues,
            venue_keys(store@),
            all_marked(store@.venues.len()),
            false,
        ),
{
    let mask = mark_all(store.venues.len());
    assert(mask@ =~= all_marked(store@.venues.len()));
    assert(listing_keys(store.venues@) =~= venue_keys(store@));
    select(&store.venues, &mask, false)
}

/// The store with one more venue at the end.
pub open spec fn with_venue(s: LogbookView, v: VenueValue) -> LogbookView {
    LogbookView { venues: s.venues.push(v), ..s }
}

/// Adds the venue that `payload` describes under the id `id`, made at `created_at`.
///
/// Refused with `DuplicateId` where the logbook already holds a venue with the id.
pub fn venues_insert(
    store: &mut LogbookStore,
    id: String,
    created_at: String,
    payload: VenuePayload,
) -> (r: Result<Venue, StoreError>)
    ensures
        venue_ids(old(store)@).contains(id@) ==> refused(r, StoreError::DuplicateId),
        !venue_ids(old(store)@).contains(id@) ==> r is Ok,
        r matches Ok(v) ==> v@ == venue_of(id@, created_at@, payload) && final(store)@
            == with_venue(old(store)@, v@),
        r is Err ==> final(store)@ == old(store)@,
{
    proof {
        lemma_logbook_idents(store);
    }
    let venue = Venue::from_payload(id, created_at, payload);
    let out = venue.copy();
    match add_record(&mut store.venues, venue) {
        Ok(()) => Ok(out),
        Err(e) => Err(e),
    }
}

/// Adds the venue that `payload` describes under a fresh id, made now.
///
/// Refused with `DuplicateId` where the fresh id is that of a venue of the logbook.
///
/// Which fresh id is drawn is not known beforehand. Where no id of that kind in
/// the store has the shape of a fresh id, none can be taken, and the call
/// succeeds unless it is refused for what the payload names.
pub fn venues_create(store: &mut LogbookStore, payload: VenuePayload) -> (r: Result<
    Venue,
    StoreError,
>)
    ensures
        none_fresh(venue_ids(old(store)@)) ==> r is Ok,
        r matches Err(e) ==> e == StoreError::DuplicateId,
        r matches Ok(v) ==> is_hyphenated_id(v@.id) && !venue_ids(old(store)@).contains(v@.id)
            && v@ == venue_of(v@.id, v@.created_at, payload) && final(store)@ == with_venue(
            old(store)@,
            v@,
        ),
        r is Err ==> final(store)@ == old(store)@,
{
    venues_insert(store, fresh_id(), time_stamp(), payload)
}

/// The venue `new` with the moment at which `old` was made.
pub open spec fn venue_kept(old: VenueValue, new: VenueValue) -> VenueValue {
    VenueValue { created_at: old.created_at, ..new }
}

/// The store with the venue at position `i` replaced by `v`, made when the
/// replaced venue was.
pub open spec fn with_venue_at(s: LogbookView, i: int, v: VenueValue) -> LogbookView {
    LogbookView { venues: s.venues.update(i, venue_kept(s.venues[i], v)), ..s }
}

/// Replaces the venue that has the id of `venue` by `venue`; the moment it was
/// made stays. Hands `venue` back. Never refused: where the logbook holds no
/// venue with the id, nothing changes.
pub fn venues_update(store: &mut LogbookStore, venue: Venue) -> (r: Result<Venue, StoreError>)
    ensures
        r matches Ok(v) && v@ == venue@,
        find_id(venue_ids(old(store)@), venue@.id) is None ==> final(store)@ == old(store)@,
        find_id(venue_ids(old(store)@), venue@.id) is Some ==> final(store)@ == with_venue_at(
            old(store)@,
            find_id(venue_ids(old(store)@), venue@.id)->0,
            venue@,
        ),
{
    proof {
        lemma_logbook_idents(store);
    }
    match position_of(&store.venues, venue.id.as_str()) {
        Some(i) => {
            let ghost was = store.venues@[i as int]@;
            assert(store@.venues[i as int] == was);
            let mut kept = venue.copy();
            kept.created_at = copy_text(&store.venues[i].created_at);
            let ghost value = kept@;
            store.venues[i] = kept;
            assert(store@.venues =~= old(store)@.venues.update(i as int, value));
            Ok(venue)
        },
        None => Ok(venue),
    }
}

/// A gig without its venue, if that is `venue`.
pub open spec fn gig_without_venue(g: GigValue, venue: Seq<char>) -> GigValue {
    if g.venue_id == Some(venue) {
        GigValue { venue_id: None, ..g }
    } else {
        g
    }
}

/// The store without the venue at position `i`; its gigs have no venue.
pub open spec fn without_venue(s: LogbookView, i: int) -> LogbookView {
    LogbookView {
        venues: s.venues.remove(i),
        gigs: Seq::new(s.gigs.len(), |j: int| gig_without_venue(s.gigs[j], s.venues[i].id)),
        ..s
    }
}

/// Removes the venue with the id `id` and takes it off its gigs. Never refused:
/// where the logbook holds no venue with the id, nothing changes.
pub fn venues_delete(store: &mut LogbookStore, id: String) -> (r: Result<(), StoreError>)
    ensures
        r is Ok,
        find_id(venue_ids(old(store)@), id@) is None ==> final(store)@ == old(store)@,
        find_id(venue_ids(old(store)@), id@) is Some ==> final(store)@ == without_venue(
            old(store)@,
            find_id(venue_ids(old(store)@), id@)->0,
        ),
{
    proof {
        lemma_logbook_idents(store);
        lemma_find_id(venue_ids(store@), id@);
    }
    let ghost before = store@;
    match drop_record(&mut store.venues, id.as_str()) {
        Err(e) => Ok(()),
        Ok(()) => {
            let mut i: usize = 0;
            while i < store.gigs.len()
                invariant
                    i <= store@.gigs.len(),
                    store@.gigs.len() == before.gigs.len(),
                    store@.venues == before.venues.remove(find_id(venue_ids(before), id@)->0),
                    store@.events == before.events,
                    store@.checklists == before.checklists,
                    store@.items == before.items,
                    store@.contacts == before.contacts,
                    forall|j: int|
                        0 <= j < i ==> #[trigger] store@.gigs[j] == gig_without_venue(
                            before.gigs[j],
                            id@,
                        ),
                    forall|j: int|
                        i <= j < before.gigs.len() ==> #[trigger] store@.gigs[j] == before.gigs[j],
                decreases store@.gigs.len() - i,
            {
                let ghost prev = store.gigs@;
                let ghost mid = store@;
                assert(mid.gigs[i as int] == prev[i as int]@);
                let there = match &store.gigs[i].venue_id {
                    Some(v) => is_same_text(v.as_str(), id.as_str()),
                    None => false,
                };
                if there {
                    store.gigs[i].venue_id = None;
                }
                proof {
                    let now = store.gigs@;
                    assert(forall|j: int| 0 <= j < prev.len() && j != i ==> now[j] == prev[j]);
                    assert forall|j: int| 0 <= j < prev.len() && j != i implies #[trigger] store@.gigs[j]
                        == mid.gigs[j] by {
                        assert(store@.gigs[j] == now[j]@);
                        assert(mid.gigs[j] == prev[j]@);
                    }
                    assert(store@.gigs[i as int] == now[i as int]@);
                }
                i = i + 1;
            }
            assert(store@.gigs =~= without_venue(before, find_id(venue_ids(before), id@)->0).gigs);
            Ok(())
        },
    }
}

// -------------------------------------------------------------------- gigs

/// The name of the venue that a gig names, where the logbook holds the venue.
pub open spec fn venue_name_of(s: LogbookView, venue_id: Option<Seq<char>>) -> Option<Seq<char>> {
    match venue_id {
        Some(v) => match find_id(venue_ids(s), v) {
            Some(i) => Some(s.venues[i].name),
            None => None,
        },
        None => None,
    }
}

/// A gig with the name of its venue looked up.
pub open spec fn gig_with_venue(s: LogbookView, g: GigValue) -> GigValue {
    GigValue { venue_name: venue_name_of(s, g.venue_id), ..g }
}

/// A copy of a gig with the name of its venue looked up.
pub fn gig_joined(store: &LogbookStore, gig: &Gig) -> (r: Gig)
    ensures
        r@ == gig_with_venue(store@, gig@),
{
    proof {
        lemma_logbook_idents(store);
    }
    let mut out = gig.copy();
    out.venue_name = match &gig.venue_id {
        Some(v) => match position_of(&store.venues, v.as_str()) {
            Some(i) => {
                assert(store@.venues[i as int] == store.venues@[i as int]@);
                Some(copy_text(&store.venues[i].name))
            },
            None => None,
        },
        None => None,
    };
    out
}

/// The listing keys of the gigs, in store order.
pub open spec fn gig_keys(s: LogbookView) -> Seq<OrderKeyView> {
    Seq::new(s.gigs.len(), |i: int| gig_key(s.gigs[i]))
}

/// The gigs in listing order: latest date first, gigs without a date last.
pub open spec fn gigs_in_order(s: LogbookView) -> Seq<GigValue> {
    selected(s.gigs, gig_keys(s), all_marked(s.gigs.len()), true)
}

/// The gigs, latest date first and gigs without a date last, each with the
/// name of its venue.
pub fn gigs_get_all(store: &LogbookStore) -> (r: Vec<Gig>)
    ensures
        r.deep_view() == Seq::new(
            gigs_in_order(store@).len(),
            |k: int| gig_with_venue(store@, gigs_in_order(store@)[k]),
        ),
{
    let mask = mark_all(store.gigs.len());
    assert(mask@ =~= all_marked(store@.gigs.len()));
    assert(listing_keys(store.gigs@) =~= gig_keys(store@));
    let plain = select(&store.gigs, &mask, true);
    let ghost wanted = gigs_in_order(store@);
    let mut r: Vec<Gig> = Vec::new();
    let mut k: usize = 0;
    while k < plain.len()
        invariant
            k <= plain@.len(),
            plain.deep_view() == wanted,
            r@.len() == k,
            forall|j: int| 0 <= j < k ==> (#[trigger] r@[j])@ == gig_with_venue(store@, wanted[j]),
        decreases plain@.len() - k,
    {
        assert(plain.deep_view()[k as int] == plain@[k as int]@);
        r.push(gig_joined(store, &plain[k]));
        k = k + 1;
    }
    assert(plain.deep_view().len() == plain@.len());
    assert(r.deep_view() =~= Seq::new(wanted.len(), |k: int| gig_with_venue(store@, wanted[k])));
    r
}

/// The venue that a gig names is a venue of the logbook.
pub open spec fn gig_refs_ok(s: LogbookView, g: GigValue) -> bool {
    g.venue_id matches Some(v) ==> venue_ids(s).contains(v)
}

/// Whether the venue that a gig names is a venue of the logbook.
fn gig_names_venue(store: &LogbookStore, venue_id: &Option<String>) -> (r: bool)
    ensures
        r == (venue_id.deep_view() matches Some(v) ==> venue_ids(store@).contains(v)),
{
    proof {
        lemma_logbook_idents(store);
    }
    match venue_id {
        Some(v) => {
            proof {
                lemma_find_id(venue_ids(store@), v@);
            }
            position_of(&store.venues, v.as_str()).is_some()
        },
        None => true,
    }
}

/// The store with one more gig at the end.
pub open spec fn with_gig(s: LogbookView, g: GigValue) -> LogbookView {
    LogbookView { gigs: s.gigs.push(g), ..s }
}

/// Adds the gig that `payload` describes under the id `id`, made at
/// `created_at`. Hands the gig back with the name of its venue. The setlist
/// that the payload names is not looked up: the logbook holds no setlists.
///
/// Refused with `InvalidReference` where the logbook does not hold the venue
/// that the payload names, and else with `DuplicateId` where it already holds a
/// gig with the id.
pub fn gigs_insert(store: &mut LogbookStore, id: String, created_at: String, payload: GigPayload) -> (r:
    Result<Gig, StoreError>)
    ensures
        !gig_refs_ok(old(store)@, gig_of(id@, created_at@, payload)) ==> refused(
            r,
            StoreError::InvalidReference,
        ),
        gig_refs_ok(old(store)@, gig_of(id@, created_at@, payload)) && gig_ids(
            old(store)@,
        ).contains(id@) ==> refused(r, StoreError::DuplicateId),
        gig_refs_ok(old(store)@, gig_of(id@, created_at@, payload)) && !gig_ids(
            old(store)@,
        ).contains(id@) ==> r is Ok,
        r matches Ok(g) ==> g@ == gig_with_venue(old(store)@, gig_of(id@, created_at@, payload))
            && final(store)@ == with_gig(old(store)@, gig_of(id@, created_at@, payload)),
        r is Err ==> final(store)@ == old(store)@,
{
    proof {
        lemma_logbook_idents(store);
    }
    if !gig_names_venue(store, &payload.venue_id) {
        return Err(StoreError::InvalidReference);
    }
    let gig = Gig::from_payload(id, created_at, payload);
    let out = gig_joined(store, &gig);
    match add_record(&mut store.gigs, gig) {
        Ok(()) => Ok(out),
        Err(e) => Err(e),
    }
}

/// Adds the gig that `payload` describes under a fresh id, made now.
///
/// Refused with `InvalidReference` where the logbook does not hold the venue
/// that the payload names, and else with `DuplicateId` where the fresh id is
/// that of a gig of the logbook.
///
/// Which fresh id is drawn is not known beforehand. Where no id of that kind in
/// the store has the shape of a fresh id, none can be taken, and the call
/// succeeds unless it is refused for what the payload names.
pub fn gigs_create(store: &mut LogbookStore, payload: GigPayload) -> (r: Result<Gig, StoreError>)
    ensures
        !gig_refs_ok(old(store)@, gig_of(Seq::empty(), Seq::empty(), payload)) ==> refused(
            r,
            StoreError::InvalidReference,
        ),
        gig_refs_ok(old(store)@, gig_of(Seq::empty(), Seq::empty(), payload)) && none_fresh(
            gig_ids(old(store)@),
        ) ==> r is Ok,
        r matches Err(e) ==> (e == StoreError::InvalidReference && !gig_refs_ok(
            old(store)@,
            gig_of(Seq::empty(), Seq::empty(), payload),
        )) || (e == StoreError::DuplicateId && gig_refs_ok(
            old(store)@,
            gig_of(Seq::empty(), Seq::empty(), payload),
        )),
        r matches Ok(g) ==> is_hyphenated_id(g@.id) && !gig_ids(old(store)@).contains(g@.id)
            && g@ == gig_with_venue(old(store)@, gig_of(g@.id, g@.created_at, payload))
            && final(store)@ == with_gig(old(store)@, gig_of(g@.id, g@.created_at, payload)),
        r is Err ==> final(store)@ == old(store)@,
{
    gigs_insert(store, fresh_id(), time_stamp(), payload)
}

/// The gig `new` as it is stored in place of `old`: made when `old` was, with
/// no venue name of its own.
pub open spec fn gig_kept(old: GigValue, new: GigValue) -> GigValue {
    GigValue { created_at: old.created_at, venue_name: old.venue_name, ..new }
}

/// The store with the gig at position `i` replaced by `g`.
pub open spec fn with_gig_at(s: LogbookView, i: int, g: GigValue) -> LogbookView {
    LogbookView { gigs: s.gigs.update(i, gig_kept(s.gigs[i], g)), ..s }
}

/// Replaces the gig that has the id of `gig` by `gig`; the moment it was made
/// stays. Hands the stored gig back with the name of its venue.
///
/// Refused with `InvalidReference` where the logbook does not hold the venue
/// that `gig` names, and else with `NotFound` where it holds no gig with the id.
pub fn gigs_update(store: &mut LogbookStore, gig: Gig) -> (r: Result<Gig, StoreError>)
    ensures
        !gig_refs_ok(old(store)@, gig@) ==> refused(r, StoreError::InvalidReference),
        gig_refs_ok(old(store)@, gig@) && find_id(gig_ids(old(store)@), gig@.id) is None
            ==> refused(r, StoreError::NotFound),
        gig_refs_ok(old(store)@, gig@) && find_id(gig_ids(old(store)@), gig@.id) is Some ==> r
            is Ok,
        r matches Ok(g) ==> final(store)@ == with_gig_at(
            old(store)@,
            find_id(gig_ids(old(store)@), gig@.id)->0,
            gig@,
        ) && g@ == gig_with_venue(
            final(store)@,
            final(store)@.gigs[find_id(gig_ids(old(store)@), gig@.id)->0],
        ),
        r is Err ==> final(store)@ == old(store)@,
{
    proof {
        lemma_logbook_idents(store);
    }
    if !gig_names_venue(store, &gig.venue_id) {
        return Err(StoreError::InvalidReference);
    }
    match position_of(&store.gigs, gig.id.as_str()) {
        Some(i) => {
            let ghost was = store.gigs@[i as int]@;
            assert(store@.gigs[i as int] == was);
            let mut kept = gig;
            kept.created_at = copy_text(&store.gigs[i].created_at);
            kept.venue_name = copy_opt_text(&store.gigs[i].venue_name);
            let ghost value = kept@;
            store.gigs[i] = kept;
            assert(store@.gigs =~= old(store)@.gigs.update(i as int, value));
            assert(store@.gigs[i as int] == store.gigs@[i as int]@);
            Ok(gig_joined(store, &store.gigs[i]))
        },
        None => Err(StoreError::NotFound),
    }
}

/// The store with the status of the gig at position `i` set.
pub open spec fn with_status(s: LogbookView, i: int, status: Seq<char>) -> LogbookView {
    LogbookView { gigs: s.gigs.update(i, GigValue { status, ..s.gigs[i] }), ..s }
}

/// Sets the status of the gig with the id `id`. Hands the gig back with the
/// name of its venue.
///
/// Refused with `NotFound` where the logbook holds no gig with the id.
pub fn gigs_update_status(store: &mut LogbookStore, id: String, status: String) -> (r: Result<
    Gig,
    StoreError,
>)
    ensures
        find_id(gig_ids(old(store)@), id@) is None ==> refused(r, StoreError::NotFound),
        find_id(gig_ids(old(store)@), id@) is Some ==> r is Ok,
        r matches Ok(g) ==> final(store)@ == with_status(
            old(store)@,
            find_id(gig_ids(old(store)@), id@)->0,
            status@,
        ) && g@ == gig_with_venue(
            final(store)@,
            final(store)@.gigs[find_id(gig_ids(old(store)@), id@)->0],
        ),
        r is Err ==> final(store)@ == old(store)@,
{
    proof {
        lemma_logbook_idents(store);
    }
    match position_of(&store.gigs, id.as_str()) {
        Some(i) => {
            let ghost was = store.gigs@[i as int]@;
            assert(store@.gigs[i as int] == was);
            store.gigs[i].status = status;
            assert(store@.gigs =~= old(store)@.gigs.update(
                i as int,
                GigValue { status: status@, ..was },
            ));
            assert(store@.gigs[i as int] == store.gigs@[i as int]@);
            Ok(gig_joined(store, &store.gigs[i]))
        },
        None => Err(StoreError::NotFound),
    }
}

/// The store with the follow-up of the gig at position `i` set.
pub open spec fn with_follow_up(
    s: LogbookView,
    i: int,
    date: Option<Seq<char>>,
    note: Option<Seq<char>>,
) -> LogbookView {
    LogbookView {
        gigs: s.gigs.update(
            i,
            GigValue { follow_up_date: date, follow_up_note: note, ..s.gigs[i] },
        ),
        ..s
    }
}

/// Sets the date and the note of the follow-up of the gig with the id `id`.
///
/// Never refused: where the logbook holds no gig with the id, nothing changes.
pub fn gigs_update_follow_up(
    store: &mut LogbookStore,
    id: String,
    follow_up_date: Option<String>,
    follow_up_note: Option<String>,
) -> (r: Result<(), StoreError>)
    ensures
        r is Ok,
        find_id(gig_ids(old(store)@), id@) is None ==> final(store)@ == old(store)@,
        find_id(gig_ids(old(store)@), id@) is Some ==> final(store)@ == with_follow_up(
            old(store)@,
            find_id(gig_ids(old(store)@), id@)->0,
            follow_up_date.deep_view(),
            follow_up_note.deep_view(),
        ),
{
    proof {
        lemma_logbook_idents(store);
        lemma_find_id(gig_ids(store@), id@);
    }
    match position_of(&store.gigs, id.as_str()) {
        Some(i) => {
            let ghost was = store.gigs@[i as int]@;
            assert(store@.gigs[i as int] == was);
            store.gigs[i].follow_up_date = follow_up_date;
            store.gigs[i].follow_up_note = follow_up_note;
            assert(store@.gigs =~= old(store)@.gigs.update(
                i as int,
                GigValue {
                    follow_up_date: follow_up_date.deep_view(),
                    follow_up_note: follow_up_note.deep_view(),
                    ..was
                },
            ));
            Ok(())
        },
        None => Ok(()),
    }
}

/// A gig without its setlist, if that is `setlist`.
pub open spec fn gig_without_setlist(g: GigValue, setlist: Seq<char>) -> GigValue {
    if g.setlist_id == Some(setlist) {
        GigValue { setlist_id: None, ..g }
    } else {
        g
    }
}

/// Takes the setlist `setlist_id` off every gig, as after the playlist was removed.
pub fn gigs_forget_setlist(store: &mut LogbookStore, setlist_id: &str)
    ensures
        final(store)@ == (LogbookView {
            gigs: Seq::new(
                old(store)@.gigs.len(),
                |j: int| gig_without_setlist(old(store)@.gigs[j], setlist_id@),
            ),
            ..old(store)@
        }),
{
    let ghost before = store@;
    let mut i: usize = 0;
    while i < store.gigs.len()
        invariant
            i <= store@.gigs.len(),
            store@.gigs.len() == before.gigs.len(),
            store@.venues == before.venues,
            store@.events == before.events,
            store@.checklists == before.checklists,
            store@.items == before.items,
            store@.contacts == before.contacts,
            forall|j: int|
                0 <= j < i ==> #[trigger] store@.gigs[j] == gig_without_setlist(
                    before.gigs[j],
                    setlist_id@,
                ),
            forall|j: int|
                i <= j < before.gigs.len() ==> #[trigger] store@.gigs[j] == before.gigs[j],
        decreases store@.gigs.len() - i,
    {
        let ghost prev = store.gigs@;
        let ghost mid = store@;
        assert(mid.gigs[i as int] == prev[i as int]@);
        let there = match &store.gigs[i].setlist_id {
            Some(v) => is_same_text(v.as_str(), setlist_id),
            None => false,
        };
        if there {
            store.gigs[i].setlist_id = None;
        }
        proof {
            let now = store.gigs@;
            assert(forall|j: int| 0 <= j < prev.len() && j != i ==> now[j] == prev[j]);
            assert forall|j: int| 0 <= j < prev.len() && j != i implies #[trigger] store@.gigs[j]
                == mid.gigs[j] by {
                assert(store@.gigs[j] == now[j]@);
                assert(mid.gigs[j] == prev[j]@);
            }
            assert(store@.gigs[i as int] == now[i as int]@);
        }
        i = i + 1;
    }
    assert(store@.gigs =~= Seq::new(
        before.gigs.len(),
        |j: int| gig_without_setlist(before.gigs[j], setlist_id@),
    ));
}

} // verus!
