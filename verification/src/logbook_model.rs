//! The logbook data model: venues, gigs, calendar entries, the checklists of
//! a gig with their items, and the notes of contacts.

use vstd::prelude::*;
use crate::text::{copy_opt_text, copy_text};

verus! {

/// A place to play.
#[derive(Clone, Debug, PartialEq, Eq)]
pub struct Venue {
    pub id: String,
    pub name: String,
    pub city: Option<String>,
    pub address: Option<String>,
    pub website: Option<String>,
    pub capacity: Option<i64>,
    pub booking_name: Option<String>,
    pub booking_email: Option<String>,
    pub booking_phone: Option<String>,
    pub notes: Option<String>,
    pub created_at: String,
}

/// Mathematical value of a [`Venue`].
pub struct VenueValue {
    pub id: Seq<char>,
    pub name: Seq<char>,
    pub city: Option<Seq<char>>,
    pub address: Option<Seq<char>>,
    pub website: Option<Seq<char>>,
    pub capacity: Option<i64>,
    pub booking_name: Option<Seq<char>>,
    pub booking_email: Option<Seq<char>>,
    pub booking_phone: Option<Seq<char>>,
    pub notes: Option<Seq<char>>,
    pub created_at: Seq<char>,
}

impl View for Venue {
    type V = VenueValue;

    open spec fn view(&self) -> VenueValue {
        VenueValue {
            id: self.id@,
            name: self.name@,
            city: self.city.deep_view(),
            address: self.address.deep_view(),
            website: self.website.deep_view(),
            capacity: self.capacity,
            booking_name: self.booking_name.deep_view(),
            booking_email: self.booking_email.deep_view(),
            booking_phone: self.booking_phone.deep_view(),
            notes: self.notes.deep_view(),
            created_at: self.created_at@,
        }
    }
}

impl DeepView for Venue {
    type V = VenueValue;

    open spec fn deep_view(&self) -> VenueValue {
        self@
    }
}

impl Venue {
    /// A fresh copy.
    pub fn copy(&self) -> (r: Venue)
        ensures
            r@ == self@,
    {
        Venue {
            id: copy_text(&self.id),
            name: copy_text(&self.name),
            city: copy_opt_text(&self.city),
            address: copy_opt_text(&self.address),
            website: copy_opt_text(&self.website),
            capacity: self.capacity,
            booking_name: copy_opt_text(&self.booking_name),
            booking_email: copy_opt_text(&self.booking_email),
            booking_phone: copy_opt_text(&self.booking_phone),
            notes: copy_opt_text(&self.notes),
            created_at: copy_text(&self.created_at),
        }
    }
}

/// A gig, from the first lead to the follow-up. `venue_name` is the name of the venue where a listing has looked it up.
#[derive(Clone, Debug, PartialEq, Eq)]
pub struct Gig {
    pub id: String,
    pub venue_id: Option<String>,
    pub venue_name: Option<String>,
    pub title: String,
    pub date: Option<String>,
    pub time: Option<String>,
    pub status: String,
    pub pay: Option<String>,
    pub load_in_time: Option<String>,
    pub soundcheck_time: Option<String>,
    pub set_time: Option<String>,
    pub setlist_id: Option<String>,
    pub notes: Option<String>,
    pub created_at: String,
    pub follow_up_date: Option<String>,
    pub follow_up_note: Option<String>,
}

/// Mathematical value of a [`Gig`].
pub struct GigValue {
    pub id: Seq<char>,
    pub venue_id: Option<Seq<char>>,
    pub venue_name: Option<Seq<char>>,
    pub title: Seq<char>,
    pub date: Option<Seq<char>>,
    pub time: Option<Seq<char>>,
    pub status: Seq<char>,
    pub pay: Option<Seq<char>>,
    pub load_in_time: Option<Seq<char>>,
    pub soundcheck_time: Option<Seq<char>>,
    pub set_time: Option<Seq<char>>,
    pub setlist_id: Option<Seq<char>>,
    pub notes: Option<Seq<char>>,
    pub created_at: Seq<char>,
    pub follow_up_date: Option<Seq<char>>,
    pub follow_up_note: Option<Seq<char>>,
}

impl View for Gig {
    type V = GigValue;

    open spec fn view(&self) -> GigValue {
        GigValue {
            id: self.id@,
            venue_id: self.venue_id.deep_view(),
            venue_name: self.venue_name.deep_view(),
            title: self.title@,
            date: self.date.deep_view(),
            time: self.time.deep_view(),
            status: self.status@,
            pay: self.pay.deep_view(),
            load_in_time: self.load_in_time.deep_view(),
            soundcheck_time: self.soundcheck_time.deep_view(),
            set_time: self.set_time.deep_view(),
            setlist_id: self.setlist_id.deep_view(),
            notes: self.notes.deep_view(),
            created_at: self.created_at@,
            follow_up_date: self.follow_up_date.deep_view(),
            follow_up_note: self.follow_up_note.deep_view(),
        }
    }
}

impl DeepView for Gig {
    type V = GigValue;

    open spec fn deep_view(&self) -> GigValue {
        self@
    }
}

impl Gig {
    /// A fresh copy.
    pub fn copy(&self) -> (r: Gig)
        ensures
            r@ == self@,
    {
        Gig {
            id: copy_text(&self.id),
            venue_id: copy_opt_text(&self.venue_id),
            venue_name: copy_opt_text(&self.venue_name),
            title: copy_text(&self.title),
            date: copy_opt_text(&self.date),
            time: copy_opt_text(&self.time),
            status: copy_text(&self.status),
            pay: copy_opt_text(&self.pay),
            load_in_time: copy_opt_text(&self.load_in_time),
            soundcheck_time: copy_opt_text(&self.soundcheck_time),
            set_time: copy_opt_text(&self.set_time),
            setlist_id: copy_opt_text(&self.setlist_id),
            notes: copy_opt_text(&self.notes),
            created_at: copy_text(&self.created_at),
            follow_up_date: copy_opt_text(&self.follow_up_date),
            follow_up_note: copy_opt_text(&self.follow_up_note),
        }
    }
}

/// An entry of the band's calendar. `member_name` is the name of the member where a listing has looked it up.
#[derive(Clone, Debug, PartialEq, Eq)]
pub struct CalendarEvent {
    pub id: String,
    pub event_type: String,
    pub title: String,
    pub date: String,
    pub end_date: Option<String>,
    pub member_id: Option<String>,
    pub member_name: Option<String>,
    pub all_day: bool,
    pub notes: Option<String>,
    pub created_at: String,
}

/// Mathematical value of a [`CalendarEvent`].
pub struct CalendarEventValue {
    pub id: Seq<char>,
    pub event_type: Seq<char>,
    pub title: Seq<char>,
    pub date: Seq<char>,
    pub end_date: Option<Seq<char>>,
    pub member_id: Option<Seq<char>>,
    pub member_name: Option<Seq<char>>,
    pub all_day: bool,
    pub notes: Option<Seq<char>>,
    pub created_at: Seq<char>,
}

impl View for CalendarEvent {
    type V = CalendarEventValue;

    open spec fn view(&self) -> CalendarEventValue {
        CalendarEventValue {
            id: self.id@,
            event_type: self.event_type@,
            title: self.title@,
            date: self.date@,
            end_date: self.end_date.deep_view(),
            member_id: self.member_id.deep_view(),
            member_name: self.member_name.deep_view(),
            all_day: self.all_day,
            notes: self.notes.deep_view(),
            created_at: self.created_at@,
        }
    }
}

impl DeepView for CalendarEvent {
    type V = CalendarEventValue;

    open spec fn deep_view(&self) -> CalendarEventValue {
        self@
    }
}

impl CalendarEvent {
    /// A fresh copy.
    pub fn copy(&self) -> (r: CalendarEvent)
        ensures
            r@ == self@,
    {
        CalendarEvent {
            id: copy_text(&self.id),
            event_type: copy_text(&self.event_type),
            title: copy_text(&self.title),
            date: copy_text(&self.date),
            end_date: copy_opt_text(&self.end_date),
            member_id: copy_opt_text(&self.member_id),
            member_name: copy_opt_text(&self.member_name),
            all_day: self.all_day,
            notes: copy_opt_text(&self.notes),
            created_at: copy_text(&self.created_at),
        }
    }
}

/// A checklist of a gig.
#[derive(Clone, Debug, PartialEq, Eq)]
pub struct GigChecklist {
    pub id: String,
    pub gig_id: String,
    pub name: String,
    pub created_at: String,
}

/// Mathematical value of a [`GigChecklist`].
pub struct GigChecklistValue {
    pub id: Seq<char>,
    pub gig_id: Seq<char>,
    pub name: Seq<char>,
    pub created_at: Seq<char>,
}

impl View for GigChecklist {
    type V = GigChecklistValue;

    open spec fn view(&self) -> GigChecklistValue {
        GigChecklistValue {
            id: self.id@,
            gig_id: self.gig_id@,
            name: self.name@,
            created_at: self.created_at@,
        }
    }
}

impl DeepView for GigChecklist {
    type V = GigChecklistValue;

    open spec fn deep_view(&self) -> GigChecklistValue {
        self@
    }
}

impl GigChecklist {
    /// A fresh copy.
    pub fn copy(&self) -> (r: GigChecklist)
        ensures
            r@ == self@,
    {
        GigChecklist {
            id: copy_text(&self.id),
            gig_id: copy_text(&self.gig_id),
            name: copy_text(&self.name),
            created_at: copy_text(&self.created_at),
        }
    }
}

/// An item of a checklist.
#[derive(Clone, Debug, PartialEq, Eq)]
pub struct ChecklistItem {
    pub id: String,
    pub checklist_id: String,
    pub category: String,
    pub text: String,
    pub done: bool,
    pub sort_order: i64,
}

/// Mathematical value of a [`ChecklistItem`].
pub struct ChecklistItemValue {
    pub id: Seq<char>,
    pub checklist_id: Seq<char>,
    pub category: Seq<char>,
    pub text: Seq<char>,
    pub done: bool,
    pub sort_order: i64,
}

impl View for ChecklistItem {
    type V = ChecklistItemValue;

    open spec fn view(&self) -> ChecklistItemValue {
        ChecklistItemValue {
            id: self.id@,
            checklist_id: self.checklist_id@,
            category: self.category@,
            text: self.text@,
            done: self.done,
            sort_order: self.sort_order,
        }
    }
}

impl DeepView for ChecklistItem {
    type V = ChecklistItemValue;

    open spec fn deep_view(&self) -> ChecklistItemValue {
        self@
    }
}

impl ChecklistItem {
    /// A fresh copy.
    pub fn copy(&self) -> (r: ChecklistItem)
        ensures
            r@ == self@,
    {
        ChecklistItem {
            id: copy_text(&self.id),
            checklist_id: copy_text(&self.checklist_id),
            category: copy_text(&self.category),
            text: copy_text(&self.text),
            done: self.done,
            sort_order: self.sort_order,
        }
    }
}

/// A note of a contact with the people of a gig.
#[derive(Clone, Debug, PartialEq, Eq)]
pub struct GigContact {
    pub id: String,
    pub gig_id: String,
    pub date: String,
    pub contact_type: String,
    pub notes: Option<String>,
    pub created_at: String,
}

/// Mathematical value of a [`GigContact`].
pub struct GigContactValue {
    pub id: Seq<char>,
    pub gig_id: Seq<char>,
    pub date: Seq<char>,
    pub contact_type: Seq<char>,
    pub notes: Option<Seq<char>>,
    pub created_at: Seq<char>,
}

impl View for GigContact {
    type V = GigContactValue;

    open spec fn view(&self) -> GigContactValue {
        GigContactValue {
            id: self.id@,
            gig_id: self.gig_id@,
            date: self.date@,
            contact_type: self.contact_type@,
            notes: self.notes.deep_view(),
            created_at: self.created_at@,
        }
    }
}

impl DeepView for GigContact {
    type V = GigContactValue;

    open spec fn deep_view(&self) -> GigContactValue {
        self@
    }
}

impl GigContact {
    /// A fresh copy.
    pub fn copy(&self) -> (r: GigContact)
        ensures
            r@ == self@,
    {
        GigContact {
            id: copy_text(&self.id),
            gig_id: copy_text(&self.gig_id),
            date: copy_text(&self.date),
            contact_type: copy_text(&self.contact_type),
            notes: copy_opt_text(&self.notes),
            created_at: copy_text(&self.created_at),
        }
    }
}

/// What is given to add a venue.
#[derive(Clone, Debug, PartialEq, Eq)]
pub struct VenuePayload {
    pub name: String,
    pub city: Option<String>,
    pub address: Option<String>,
    pub website: Option<String>,
    pub capacity: Option<i64>,
    pub booking_name: Option<String>,
    pub booking_email: Option<String>,
    pub booking_phone: Option<String>,
    pub notes: Option<String>,
}

/// What is given to add a gig.
#[derive(Clone, Debug, PartialEq, Eq)]
pub struct GigPayload {
    pub venue_id: Option<String>,
    pub title: String,
    pub date: Option<String>,
    pub time: Option<String>,
    pub status: String,
    pub pay: Option<String>,
    pub load_in_time: Option<String>,
    pub soundcheck_time: Option<String>,
    pub set_time: Option<String>,
    pub setlist_id: Option<String>,
    pub notes: Option<String>,
    pub follow_up_date: Option<String>,
    pub follow_up_note: Option<String>,
}

/// What is given to add a calendar entry.
#[derive(Clone, Debug, PartialEq, Eq)]
pub struct CalendarEventPayload {
    pub event_type: String,
    pub title: String,
    pub date: String,
    pub end_date: Option<String>,
    pub member_id: Option<String>,
    pub all_day: bool,
    pub notes: Option<String>,
}

/// What is given to add a checklist to a gig.
#[derive(Clone, Debug, PartialEq, Eq)]
pub struct GigChecklistPayload {
    pub gig_id: String,
    pub name: String,
}

/// What is given to add an item to a checklist.
#[derive(Clone, Debug, PartialEq, Eq)]
pub struct ChecklistItemPayload {
    pub checklist_id: String,
    pub category: String,
    pub text: String,
    pub sort_order: i64,
}

/// What is given to note a contact.
#[derive(Clone, Debug, PartialEq, Eq)]
pub struct GigContactPayload {
    pub gig_id: String,
    pub date: String,
    pub contact_type: String,
    pub notes: Option<String>,
}

/// The venue that a payload describes, under the id `id`, made at `created_at`.
pub open spec fn venue_of(id: Seq<char>, created_at: Seq<char>, p: VenuePayload) -> VenueValue {
    VenueValue {
        id: id,
        name: p.name@,
        city: p.city.deep_view(),
        address: p.address.deep_view(),
        website: p.website.deep_view(),
        capacity: p.capacity,
        booking_name: p.booking_name.deep_view(),
        booking_email: p.booking_email.deep_view(),
        booking_phone: p.booking_phone.deep_view(),
        notes: p.notes.deep_view(),
        created_at: created_at,
    }
}

impl Venue {
    /// The venue that a payload describes, under the id `id`, made at `created_at`.
    pub fn from_payload(id: String, created_at: String, p: VenuePayload) -> (r: Venue)
        ensures
            r@ == venue_of(id@, created_at@, p),
    {
        Venue {
            id: id,
            name: p.name,
            city: p.city,
            address: p.address,
            website: p.website,
            capacity: p.capacity,
            booking_name: p.booking_name,
            booking_email: p.booking_email,
            booking_phone: p.booking_phone,
            notes: p.notes,
            created_at: created_at,
        }
    }
}

/// The gig that a payload describes, under the id `id`, made at `created_at`. A new gig has no follow-up yet, whatever the payload says.
pub open spec fn gig_of(id: Seq<char>, created_at: Seq<char>, p: GigPayload) -> GigValue {
    GigValue {
        id: id,
        venue_id: p.venue_id.deep_view(),
        venue_name: None,
        title: p.title@,
        date: p.date.deep_view(),
        time: p.time.deep_view(),
        status: p.status@,
        pay: p.pay.deep_view(),
        load_in_time: p.load_in_time.deep_view(),
        soundcheck_time: p.soundcheck_time.deep_view(),
        set_time: p.set_time.deep_view(),
        setlist_id: p.setlist_id.deep_view(),
        notes: p.notes.deep_view(),
        created_at: created_at,
        follow_up_date: None,
        follow_up_note: None,
    }
}

impl Gig {
    /// The gig that a payload describes, under the id `id`, made at `created_at`. A new gig has no follow-up yet, whatever the payload says.
    pub fn from_payload(id: String, created_at: String, p: GigPayload) -> (r: Gig)
        ensures
            r@ == gig_of(id@, created_at@, p),
    {
        Gig {
            id: id,
            venue_id: p.venue_id,
            venue_name: None,
            title: p.title,
            date: p.date,
            time: p.time,
            status: p.status,
            pay: p.pay,
            load_in_time: p.load_in_time,
            soundcheck_time: p.soundcheck_time,
            set_time: p.set_time,
            setlist_id: p.setlist_id,
            notes: p.notes,
            created_at: created_at,
            follow_up_date: None,
            follow_up_note: None,
        }
    }
}

/// The calendar entry that a payload describes, under the id `id`, made at `created_at`.
pub open spec fn calendar_event_of(id: Seq<char>, created_at: Seq<char>, p: CalendarEventPayload) -> CalendarEventValue {
    CalendarEventValue {
        id: id,
        event_type: p.event_type@,
        title: p.title@,
        date: p.date@,
        end_date: p.end_date.deep_view(),
        member_id: p.member_id.deep_view(),
        member_name: None,
        all_day: p.all_day,
        notes: p.notes.deep_view(),
        created_at: created_at,
    }
}

impl CalendarEvent {
    /// The calendar entry that a payload describes, under the id `id`, made at `created_at`.
    pub fn from_payload(id: String, created_at: String, p: CalendarEventPayload) -> (r: CalendarEvent)
        ensures
            r@ == calendar_event_of(id@, created_at@, p),
    {
        CalendarEvent {
            id: id,
            event_type: p.event_type,
            title: p.title,
            date: p.date,
            end_date: p.end_date,
            member_id: p.member_id,
            member_name: None,
            all_day: p.all_day,
            notes: p.notes,
            created_at: created_at,
        }
    }
}

/// The checklist that a payload describes, under the id `id`, made at `created_at`.
pub open spec fn checklist_of(id: Seq<char>, created_at: Seq<char>, p: GigChecklistPayload) -> GigChecklistValue {
    GigChecklistValue {
        id: id,
        gig_id: p.gig_id@,
        name: p.name@,
        created_at: created_at,
    }
}

impl GigChecklist {
    /// The checklist that a payload describes, under the id `id`, made at `created_at`.
    pub fn from_payload(id: String, created_at: String, p: GigChecklistPayload) -> (r: GigChecklist)
        ensures
            r@ == checklist_of(id@, created_at@, p),
    {
        GigChecklist {
            id: id,
            gig_id: p.gig_id,
            name: p.name,
            created_at: created_at,
        }
    }
}

/// The item that a payload describes, under the id `id`. A new item is not done.
pub open spec fn checklist_item_of(id: Seq<char>, p: ChecklistItemPayload) -> ChecklistItemValue {
    ChecklistItemValue {
        id: id,
        checklist_id: p.checklist_id@,
        category: p.category@,
        text: p.text@,
        done: false,
        sort_order: p.sort_order,
    }
}

impl ChecklistItem {
    /// The item that a payload describes, under the id `id`. A new item is not done.
    pub fn from_payload(id: String, p: ChecklistItemPayload) -> (r: ChecklistItem)
        ensures
            r@ == checklist_item_of(id@, p),
    {
        ChecklistItem {
            id: id,
            checklist_id: p.checklist_id,
            category: p.category,
            text: p.text,
            done: false,
            sort_order: p.sort_order,
        }
    }
}

/// The note of a contact that a payload describes, under the id `id`, made at `created_at`.
pub open spec fn contact_of(id: Seq<char>, created_at: Seq<char>, p: GigContactPayload) -> GigContactValue {
    GigContactValue {
        id: id,
        gig_id: p.gig_id@,
        date: p.date@,
        contact_type: p.contact_type@,
        notes: p.notes.deep_view(),
        created_at: created_at,
    }
}

impl GigContact {
    /// The note of a contact that a payload describes, under the id `id`, made at `created_at`.
    pub fn from_payload(id: String, created_at: String, p: GigContactPayload) -> (r: GigContact)
        ensures
            r@ == contact_of(id@, created_at@, p),
    {
        GigContact {
            id: id,
            gig_id: p.gig_id,
            date: p.date,
            contact_type: p.contact_type,
            notes: p.notes,
            created_at: created_at,
        }
    }
}

} // verus!
