//! The equipment store: the records the channel list is derived from, held in
//! the order in which they were added, and the search for a record by its id.

use vstd::prelude::*;
use crate::model::{
    Amplifier, AmplifierView, BandMember, BandMemberView, Instrument, InstrumentView, Microphone,
    MicrophoneView, PaEquipment, PaEquipmentView,
};
use crate::ordering::{
    is_ordering, key_views, lemma_ordering_is_ordering, ordering, positions, sort_positions,
    OrderKey, OrderKeyView,
};
use crate::text::{copy_text, is_same_text};

verus! {

/// A record of a store: it is found by its id, listed by a key, and copied.
pub trait Record: DeepView + Sized {
    /// The id as a mathematical value.
    spec fn ident(&self) -> Seq<char>;

    /// The key by which listings order the record.
    spec fn listing_key(&self) -> OrderKeyView;

    /// The id.
    fn id_text(&self) -> (r: &String)
        ensures
            r@ == self.ident(),
    ;

    /// The key by which listings order the record.
    fn order_key(&self) -> (r: OrderKey)
        ensures
            r@ == self.listing_key(),
    ;

    /// A fresh copy.
    fn duplicate(&self) -> (r: Self)
        ensures
            r.deep_view() == self.deep_view(),
            r.ident() == self.ident(),
            r.listing_key() == self.listing_key(),
    ;
}

/// The listing key of a member: its sort order, then its name.
pub open spec fn member_key(m: BandMemberView) -> OrderKeyView {
    OrderKeyView { group: 0, order: m.sort_order, name: m.name, tie: Seq::empty() }
}

/// The listing key of a microphone: its name.
pub open spec fn microphone_key(m: MicrophoneView) -> OrderKeyView {
    OrderKeyView { group: 0, order: 0, name: m.name, tie: Seq::empty() }
}

/// The listing key of an instrument: its channel order, then its name.
pub open spec fn instrument_key(i: InstrumentView) -> OrderKeyView {
    OrderKeyView { group: 0, order: i.channel_order, name: i.name, tie: Seq::empty() }
}

/// The listing key of an amplifier: its name.
pub open spec fn amplifier_key(a: AmplifierView) -> OrderKeyView {
    OrderKeyView { group: 0, order: 0, name: a.name, tie: Seq::empty() }
}

/// The listing key of a piece of front-of-house gear: its category, then its name.
pub open spec fn pa_key(p: PaEquipmentView) -> OrderKeyView {
    OrderKeyView { group: 0, order: 0, name: p.category, tie: p.name }
}

impl Record for BandMember {
    open spec fn ident(&self) -> Seq<char> {
        self.id@
    }

    open spec fn listing_key(&self) -> OrderKeyView {
        member_key(self@)
    }

    fn id_text(&self) -> (r: &String) {
        &self.id
    }

    fn order_key(&self) -> (r: OrderKey) {
        OrderKey { group: 0, order: self.sort_order, name: copy_text(&self.name), tie: String::new() }
    }

    fn duplicate(&self) -> (r: Self) {
        self.copy()
    }
}

impl Record for Microphone {
    open spec fn ident(&self) -> Seq<char> {
        self.id@
    }

    open spec fn listing_key(&self) -> OrderKeyView {
        microphone_key(self@)
    }

    fn id_text(&self) -> (r: &String) {
        &self.id
    }

    fn order_key(&self) -> (r: OrderKey) {
        OrderKey { group: 0, order: 0, name: copy_text(&self.name), tie: String::new() }
    }

    fn duplicate(&self) -> (r: Self) {
        self.copy()
    }
}

impl Record for Instrument {
    open spec fn ident(&self) -> Seq<char> {
        self.id@
    }

    open spec fn listing_key(&self) -> OrderKeyView {
        instrument_key(self@)
    }

    fn id_text(&self) -> (r: &String) {
        &self.id
    }

    fn order_key(&self) -> (r: OrderKey) {
        OrderKey {
            group: 0,
            order: self.channel_order,
            name: copy_text(&self.name),
            tie: String::new(),
        }
    }

    fn duplicate(&self) -> (r: Self) {
        self.copy()
    }
}

impl Record for Amplifier {
    open spec fn ident(&self) -> Seq<char> {
        self.id@
    }

    open spec fn listing_key(&self) -> OrderKeyView {
        amplifier_key(self@)
    }

    fn id_text(&self) -> (r: &String) {
        &self.id
    }

    fn order_key(&self) -> (r: OrderKey) {
        OrderKey { group: 0, order: 0, name: copy_text(&self.name), tie: String::new() }
    }

    fn duplicate(&self) -> (r: Self) {
        self.copy()
    }
}

impl Record for PaEquipment {
    open spec fn ident(&self) -> Seq<char> {
        self.id@
    }

    open spec fn listing_key(&self) -> OrderKeyView {
        pa_key(self@)
    }

    fn id_text(&self) -> (r: &String) {
        &self.id
    }

    fn order_key(&self) -> (r: OrderKey) {
        OrderKey {
            group: 0,
            order: 0,
            name: copy_text(&self.category),
            tie: copy_text(&self.name),
        }
    }

    fn duplicate(&self) -> (r: Self) {
        self.copy()
    }
}

/// The ids of a list of records.
pub open spec fn idents<T: Record>(items: Seq<T>) -> Seq<Seq<char>> {
    Seq::new(items.len(), |i: int| items[i].ident())
}

/// `i` is the first position of `ids` that holds `id`.
pub open spec fn first_at(ids: Seq<Seq<char>>, id: Seq<char>, i: int) -> bool {
    &&& 0 <= i < ids.len()
    &&& ids[i] == id
    &&& forall|j: int| 0 <= j < i ==> ids[j] != id
}

/// The first position of `ids` that holds `id`, if there is one.
pub open spec fn find_id(ids: Seq<Seq<char>>, id: Seq<char>) -> Option<int> {
    if exists|i: int| first_at(ids, id, i) {
        Some(choose|i: int| first_at(ids, id, i))
    } else {
        None
    }
}

/// No id stands twice in `ids`.
pub open spec fn distinct_ids(ids: Seq<Seq<char>>) -> bool {
    forall|i: int, j: int| 0 <= i < j < ids.len() ==> ids[i] != ids[j]
}

/// What `find_id` finds: `Some(i)` just for the first position that holds the id,
/// `None` just when no position holds it.
pub proof fn lemma_find_id(ids: Seq<Seq<char>>, id: Seq<char>)
    ensures
        match find_id(ids, id) {
            Some(i) => first_at(ids, id, i),
            None => forall|j: int| 0 <= j < ids.len() ==> ids[j] != id,
        },
        forall|i: int| first_at(ids, id, i) ==> find_id(ids, id) == Some(i),
{
    if exists|i: int| first_at(ids, id, i) {
        let c = choose|i: int| first_at(ids, id, i);
        assert forall|i: int| first_at(ids, id, i) implies find_id(ids, id) == Some(i) by {
            if i < c {
                assert(ids[i] != id);
            }
            if c < i {
                assert(ids[c] != id);
            }
        }
    } else {
        assert forall|j: int| 0 <= j < ids.len() implies ids[j] != id by {
            if ids[j] == id {
                lemma_first_exists(ids, id, j);
            }
        }
    }
}

/// Where some position holds `id`, a first one does.
pub proof fn lemma_first_exists(ids: Seq<Seq<char>>, id: Seq<char>, j: int)
    requires
        0 <= j < ids.len(),
        ids[j] == id,
    ensures
        exists|i: int| first_at(ids, id, i),
    decreases j,
{
    if exists|k: int| 0 <= k < j && ids[k] == id {
        let k = choose|k: int| 0 <= k < j && ids[k] == id;
        lemma_first_exists(ids, id, k);
    } else {
        assert(first_at(ids, id, j));
    }
}

/// An optional position as a mathematical value.
pub open spec fn as_position(p: Option<usize>) -> Option<int> {
    match p {
        Some(i) => Some(i as int),
        None => None,
    }
}

/// Finds the first record of `items` with the id `id`.
pub fn position_of<T: Record>(items: &Vec<T>, id: &str) -> (r: Option<usize>)
    ensures
        as_position(r) == find_id(idents(items@), id@),
        r matches Some(i) ==> i < items@.len(),
{
    let ghost ids = idents(items@);
    let mut i: usize = 0;
    while i < items.len()
        invariant
            i <= items@.len(),
            ids == idents(items@),
            forall|j: int| 0 <= j < i ==> ids[j] != id@,
        decreases items@.len() - i,
    {
        if is_same_text(items[i].id_text().as_str(), id) {
            proof {
                assert(first_at(ids, id@, i as int));
                lemma_find_id(ids, id@);
            }
            return Some(i);
        }
        i = i + 1;
    }
    proof {
        lemma_find_id(ids, id@);
        if find_id(ids, id@) is Some {
            let k = find_id(ids, id@)->0;
            assert(ids[k] != id@);
        }
    }
    None
}

/// The listing keys of a list of records.
pub open spec fn listing_keys<T: Record>(items: Seq<T>) -> Seq<OrderKeyView> {
    Seq::new(items.len(), |i: int| items[i].listing_key())
}

/// The values of `items`, arranged by `keys`.
pub open spec fn arranged_by<V>(items: Seq<V>, keys: Seq<OrderKeyView>) -> Seq<V> {
    Seq::new(items.len(), |k: int| items[ordering(keys)[k]])
}

/// Copies of the records, arranged by their listing keys.
pub fn listed<T: Record>(items: &Vec<T>) -> (r: Vec<T>)
    ensures
        r.deep_view() == arranged_by(items.deep_view(), listing_keys(items@)),
{
    let ghost wanted = arranged_by(items.deep_view(), listing_keys(items@));
    let mut keys: Vec<OrderKey> = Vec::new();
    let mut i: usize = 0;
    while i < items.len()
        invariant
            i <= items@.len(),
            keys@.len() == i,
            forall|j: int| 0 <= j < i ==> (#[trigger] keys@[j])@ == items@[j].listing_key(),
        decreases items@.len() - i,
    {
        keys.push(items[i].order_key());
        i = i + 1;
    }
    assert(key_views(keys@) =~= listing_keys(items@));
    let order = sort_positions(&keys);
    let ghost p = ordering(listing_keys(items@));
    proof {
        lemma_ordering_is_ordering(listing_keys(items@));
        assert(positions(order@).len() == order@.len());
    }
    let mut r: Vec<T> = Vec::new();
    let mut k: usize = 0;
    while k < order.len()
        invariant
            k <= order@.len(),
            order@.len() == items@.len(),
            positions(order@) == p,
            is_ordering(p, listing_keys(items@), items@.len() as int),
            r@.len() == k,
            forall|j: int| 0 <= j < k ==> (#[trigger] r@[j]).deep_view() == items@[p[j]].deep_view(),
        decreases order@.len() - k,
    {
        let j = order[k];
        proof {
            assert(positions(order@)[k as int] == j as int);
            assert(p.contains(p[k as int]));
        }
        r.push(items[j].duplicate());
        k = k + 1;
    }
    assert forall|j: int| 0 <= j < r@.len() implies r.deep_view()[j] == wanted[j] by {
        assert(p.contains(p[j]));
        assert(r.deep_view()[j] == r@[j].deep_view());
        assert(items.deep_view()[p[j]] == items@[p[j]].deep_view());
    }
    assert(r.deep_view() =~= wanted);
    r
}

/// Why a change to the store was refused. A refused change leaves the store as it was.
#[derive(Clone, Copy, Debug, PartialEq, Eq, Structural)]
pub enum StoreError {
    /// The store holds no record with the id of the record to change.
    NotFound,
    /// The change names, as the gear or person to attach a record to, an id that
    /// the store does not hold.
    InvalidReference,
    /// The store already holds a record of that kind with the id of the new record.
    DuplicateId,
    /// The change leaves out a value that the record cannot be without.
    MissingValue,
    /// A count or a sum does not fit the 64 bits it is kept in.
    Overflow,
}

/// The change was refused for the reason `e`.
pub open spec fn refused<T>(r: Result<T, StoreError>, e: StoreError) -> bool {
    r matches Err(x) && x == e
}

/// The records the channel list is derived from.
#[derive(Clone, Debug, PartialEq, Eq)]
pub struct EquipmentStore {
    pub members: Vec<BandMember>,
    pub microphones: Vec<Microphone>,
    pub instruments: Vec<Instrument>,
    pub amplifiers: Vec<Amplifier>,
    pub pa_equipment: Vec<PaEquipment>,
}

/// Mathematical value of an [`EquipmentStore`].
pub struct StoreView {
    pub members: Seq<BandMemberView>,
    pub microphones: Seq<MicrophoneView>,
    pub instruments: Seq<InstrumentView>,
    pub amplifiers: Seq<AmplifierView>,
    pub pa_equipment: Seq<PaEquipmentView>,
}

impl View for EquipmentStore {
    type V = StoreView;

    open spec fn view(&self) -> StoreView {
        StoreView {
            members: self.members.deep_view(),
            microphones: self.microphones.deep_view(),
            instruments: self.instruments.deep_view(),
            amplifiers: self.amplifiers.deep_view(),
            pa_equipment: self.pa_equipment.deep_view(),
        }
    }
}

/// The ids of the members, in store order.
pub open spec fn member_ids(s: StoreView) -> Seq<Seq<char>> {
    Seq::new(s.members.len(), |i: int| s.members[i].id)
}

/// The ids of the microphones, in store order.
pub open spec fn microphone_ids(s: StoreView) -> Seq<Seq<char>> {
    Seq::new(s.microphones.len(), |i: int| s.microphones[i].id)
}

/// The ids of the instruments, in store order.
pub open spec fn instrument_ids(s: StoreView) -> Seq<Seq<char>> {
    Seq::new(s.instruments.len(), |i: int| s.instruments[i].id)
}

/// The ids of the amplifiers, in store order.
pub open spec fn amplifier_ids(s: StoreView) -> Seq<Seq<char>> {
    Seq::new(s.amplifiers.len(), |i: int| s.amplifiers[i].id)
}

/// The ids of the front-of-house gear, in store order.
pub open spec fn pa_ids(s: StoreView) -> Seq<Seq<char>> {
    Seq::new(s.pa_equipment.len(), |i: int| s.pa_equipment[i].id)
}

impl EquipmentStore {
    /// A store without records.
    pub fn new() -> (r: EquipmentStore)
        ensures
            r@.members.len() == 0,
            r@.microphones.len() == 0,
            r@.instruments.len() == 0,
            r@.amplifiers.len() == 0,
            r@.pa_equipment.len() == 0,
    {
        EquipmentStore {
            members: Vec::new(),
            microphones: Vec::new(),
            instruments: Vec::new(),
            amplifiers: Vec::new(),
            pa_equipment: Vec::new(),
        }
    }

    /// Finds the member with the id `id`.
    pub fn find_member(&self, id: &str) -> (r: Option<usize>)
        ensures
            as_position(r) == find_id(member_ids(self@), id@),
            r matches Some(i) ==> i < self@.members.len(),
    {
        assert(idents(self.members@) =~= member_ids(self@));
        position_of(&self.members, id)
    }

    /// Finds the microphone with the id `id`.
    pub fn find_microphone(&self, id: &str) -> (r: Option<usize>)
        ensures
            as_position(r) == find_id(microphone_ids(self@), id@),
            r matches Some(i) ==> i < self@.microphones.len(),
    {
        assert(idents(self.microphones@) =~= microphone_ids(self@));
        position_of(&self.microphones, id)
    }

    /// Finds the instrument with the id `id`.
    pub fn find_instrument(&self, id: &str) -> (r: Option<usize>)
        ensures
            as_position(r) == find_id(instrument_ids(self@), id@),
            r matches Some(i) ==> i < self@.instruments.len(),
    {
        assert(idents(self.instruments@) =~= instrument_ids(self@));
        position_of(&self.instruments, id)
    }

    /// Finds the amplifier with the id `id`.
    pub fn find_amplifier(&self, id: &str) -> (r: Option<usize>)
        ensures
            as_position(r) == find_id(amplifier_ids(self@), id@),
            r matches Some(i) ==> i < self@.amplifiers.len(),
    {
        assert(idents(self.amplifiers@) =~= amplifier_ids(self@));
        position_of(&self.amplifiers, id)
    }

    /// Finds the piece of front-of-house gear with the id `id`.
    pub fn find_pa(&self, id: &str) -> (r: Option<usize>)
        ensures
            as_position(r) == find_id(pa_ids(self@), id@),
            r matches Some(i) ==> i < self@.pa_equipment.len(),
    {
        assert(idents(self.pa_equipment@) =~= pa_ids(self@));
        position_of(&self.pa_equipment, id)
    }
}

} // verus!
