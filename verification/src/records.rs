//! Adding, changing, removing and listing the records of the equipment store.
//!
//! A record is found by its id. A change that names an id that the store does
//! not hold is refused, and a refused change leaves the store as it was.
//! Removing a record releases what pointed at it.

use vstd::prelude::*;
use crate::assignments::holds_target;
use crate::ids::{fresh_id, is_hyphenated_id, none_fresh};
use crate::model::{
    member_of, microphone_of, AmplifierView, Assignment, AssignmentView, BandMember,
    BandMemberView, InstrumentView, MemberPayload, Microphone, MicrophonePayload,
    MicrophoneView,
};
use crate::ordering::OrderKeyView;
use crate::store::{
    amplifier_ids, arranged_by, find_id, idents, instrument_ids, lemma_find_id, listed,
    listing_keys, member_ids, member_key, microphone_ids, microphone_key, pa_ids, position_of,
    refused, EquipmentStore, Record, StoreError, StoreView,
};
use crate::text::is_same_text;

verus! {

/// An optional reference names nothing or an id of `ids`.
pub open spec fn opt_in(ids: Seq<Seq<char>>, r: Option<Seq<char>>) -> bool {
    r matches Some(x) ==> ids.contains(x)
}

/// The vocal microphone that a member names is one of the store.
pub open spec fn member_refs_ok(s: StoreView, m: BandMemberView) -> bool {
    opt_in(microphone_ids(s), m.vocal_mic_id)
}

/// The gear that a microphone is placed on is gear of the store.
pub open spec fn microphone_refs_ok(s: StoreView, m: MicrophoneView) -> bool {
    m.assignment matches AssignmentView::AssignedTo { kind, target_id } ==> holds_target(
        s,
        kind,
        target_id,
    )
}

/// The owner and the amplifier that an instrument names are records of the store.
pub open spec fn instrument_refs_ok(s: StoreView, i: InstrumentView) -> bool {
    opt_in(member_ids(s), i.member_id) && opt_in(amplifier_ids(s), i.amp_id)
}

/// The owner that an amplifier names is a member of the store.
pub open spec fn amplifier_refs_ok(s: StoreView, a: AmplifierView) -> bool {
    opt_in(member_ids(s), a.member_id)
}

/// The ids of the store's lists are the ids of its records.
pub proof fn lemma_idents(store: &EquipmentStore)
    ensures
        idents(store.members@) == member_ids(store@),
        idents(store.microphones@) == microphone_ids(store@),
        idents(store.instruments@) == instrument_ids(store@),
        idents(store.amplifiers@) == amplifier_ids(store@),
        idents(store.pa_equipment@) == pa_ids(store@),
{
    assert(idents(store.members@) =~= member_ids(store@));
    assert(idents(store.microphones@) =~= microphone_ids(store@));
    assert(idents(store.instruments@) =~= instrument_ids(store@));
    assert(idents(store.amplifiers@) =~= amplifier_ids(store@));
    assert(idents(store.pa_equipment@) =~= pa_ids(store@));
}

/// Whether an optional reference names nothing or a record of `items`.
pub(crate) fn names_one_of<T: Record>(items: &Vec<T>, id: &Option<String>) -> (r: bool)
    ensures
        r == opt_in(idents(items@), id.deep_view()),
{
    match id {
        Some(x) => {
            proof {
                lemma_find_id(idents(items@), x@);
            }
            position_of(items, x.as_str()).is_some()
        },
        None => true,
    }
}

/// Whether the gear that an assignment names is gear of the store.
fn assignment_is_held(store: &EquipmentStore, assignment: &Assignment) -> (r: bool)
    ensures
        r == (assignment@ matches AssignmentView::AssignedTo { kind, target_id } ==> holds_target(
            store@,
            kind,
            target_id,
        )),
{
    match assignment {
        Assignment::Unassigned => true,
        Assignment::AssignedTo { kind, target_id } => crate::assignments::has_target(
            store,
            *kind,
            target_id.as_str(),
        ),
    }
}

// ---------------------------------------------------------------- members

/// The listing keys of the members, in store order.
pub open spec fn member_keys(s: StoreView) -> Seq<OrderKeyView> {
    Seq::new(s.members.len(), |i: int| member_key(s.members[i]))
}

/// The members by sort order, then by name.
pub fn members_get_all(store: &EquipmentStore) -> (r: Vec<BandMember>)
    ensures
        r.deep_view() == arranged_by(store@.members, member_keys(store@)),
{
    assert(listing_keys(store.members@) =~= member_keys(store@));
    listed(&store.members)
}

/// The store with one more member at the end.
pub open spec fn with_member(s: StoreView, m: BandMemberView) -> StoreView {
    StoreView { members: s.members.push(m), ..s }
}

/// Adds the member that `payload` describes under the id `id`.
///
/// Refused with `InvalidReference` where the store does not hold the vocal
/// microphone that the payload names, and else with `DuplicateId` where it
/// already holds a member with the id.
pub fn members_insert(store: &mut EquipmentStore, id: String, payload: MemberPayload) -> (r: Result<
    BandMember,
    StoreError,
>)
    ensures
        !member_refs_ok(old(store)@, member_of(id@, payload)) ==> refused(r, StoreError::InvalidReference),
        member_refs_ok(old(store)@, member_of(id@, payload)) && member_ids(old(store)@).contains(
            id@,
        ) ==> refused(r, StoreError::DuplicateId),
        member_refs_ok(old(store)@, member_of(id@, payload)) && !member_ids(
            old(store)@,
        ).contains(id@) ==> r is Ok,
        r matches Ok(m) ==> m@ == member_of(id@, payload) && final(store)@ == with_member(
            old(store)@,
            m@,
        ),
        r is Err ==> final(store)@ == old(store)@,
{
    proof {
        lemma_idents(store);
        lemma_find_id(member_ids(store@), id@);
    }
    if !names_one_of(&store.microphones, &payload.vocal_mic_id) {
        return Err(StoreError::InvalidReference);
    }
    if position_of(&store.members, id.as_str()).is_some() {
        return Err(StoreError::DuplicateId);
    }
    let member = BandMember::from_payload(id, payload);
    let out = member.copy();
    store.members.push(member);
    assert(store@.members =~= old(store)@.members.push(out@));
    Ok(out)
}

/// Adds the member that `payload` describes under a fresh id.
///
/// Refused with `InvalidReference` where the store does not hold the vocal
/// microphone that the payload names, and else with `DuplicateId` where the
/// fresh id is that of a member of the store.
///
/// Which fresh id is drawn is not known beforehand. Where no id of that kind in
/// the store has the shape of a fresh id, none can be taken, and the call
/// succeeds unless it is refused for what the payload names.
pub fn members_create(store: &mut EquipmentStore, payload: MemberPayload) -> (r: Result<
    BandMember,
    StoreError,
>)
    ensures
        !opt_in(microphone_ids(old(store)@), payload.vocal_mic_id.deep_view()) ==> refused(r, StoreError::InvalidReference),
        opt_in(microphone_ids(old(store)@), payload.vocal_mic_id.deep_view()) && none_fresh(
            member_ids(old(store)@),
        ) ==> r is Ok,
        r matches Err(e) ==> (e == StoreError::InvalidReference && !opt_in(
            microphone_ids(old(store)@),
            payload.vocal_mic_id.deep_view(),
        )) || (e == StoreError::DuplicateId && opt_in(
            microphone_ids(old(store)@),
            payload.vocal_mic_id.deep_view(),
        )),
        r matches Ok(m) ==> is_hyphenated_id(m@.id) && !member_ids(old(store)@).contains(m@.id)
            && m@ == member_of(m@.id, payload) && final(store)@ == with_member(old(store)@, m@),
        r is Err ==> final(store)@ == old(store)@,
{
    members_insert(store, fresh_id(), payload)
}

/// The store with the member at position `i` replaced.
pub open spec fn with_member_at(s: StoreView, i: int, m: BandMemberView) -> StoreView {
    StoreView { members: s.members.update(i, m), ..s }
}

/// Replaces the member that has the id of `member` by `member`.
///
/// Refused with `InvalidReference` where the store does not hold the vocal
/// microphone that `member` names, and else with `NotFound` where it holds no
/// member with the id.
pub fn members_update(store: &mut EquipmentStore, member: BandMember) -> (r: Result<
    BandMember,
    StoreError,
>)
    ensures
        !member_refs_ok(old(store)@, member@) ==> refused(r, StoreError::InvalidReference),
        member_refs_ok(old(store)@, member@) && find_id(member_ids(old(store)@), member@.id)
            is None ==> refused(r, StoreError::NotFound),
        member_refs_ok(old(store)@, member@) && find_id(member_ids(old(store)@), member@.id)
            is Some ==> r is Ok,
        r matches Ok(m) ==> m@ == member@ && final(store)@ == with_member_at(
            old(store)@,
            find_id(member_ids(old(store)@), member@.id)->0,
            member@,
        ),
        r is Err ==> final(store)@ == old(store)@,
{
    proof {
        lemma_idents(store);
    }
    if !names_one_of(&store.microphones, &member.vocal_mic_id) {
        return Err(StoreError::InvalidReference);
    }
    match position_of(&store.members, member.id.as_str()) {
        Some(i) => {
            let out = member.copy();
            store.members[i] = member;
            assert(store@.members =~= old(store)@.members.update(i as int, out@));
            Ok(out)
        },
        None => Err(StoreError::NotFound),
    }
}

/// An instrument without its owner, if the owner is `member`.
pub open spec fn instrument_without_owner(i: InstrumentView, member: Seq<char>) -> InstrumentView {
    if i.member_id == Some(member) {
        InstrumentView { member_id: None, ..i }
    } else {
        i
    }
}

/// An amplifier without its owner, if the owner is `member`.
pub open spec fn amplifier_without_owner(a: AmplifierView, member: Seq<char>) -> AmplifierView {
    if a.member_id == Some(member) {
        AmplifierView { member_id: None, ..a }
    } else {
        a
    }
}

/// The store without the member at position `i`; the instruments and amplifiers
/// of that member have no owner.
pub open spec fn without_member(s: StoreView, i: int) -> StoreView {
    StoreView {
        members: s.members.remove(i),
        instruments: Seq::new(
            s.instruments.len(),
            |j: int| instrument_without_owner(s.instruments[j], s.members[i].id),
        ),
        amplifiers: Seq::new(
            s.amplifiers.len(),
            |j: int| amplifier_without_owner(s.amplifiers[j], s.members[i].id),
        ),
        ..s
    }
}

/// Takes the owner `member` off every instrument and amplifier.
fn release_owner(store: &mut EquipmentStore, member: &str)
    ensures
        final(store)@.members == old(store)@.members,
        final(store)@.microphones == old(store)@.microphones,
        final(store)@.pa_equipment == old(store)@.pa_equipment,
        final(store)@.instruments == Seq::new(
            old(store)@.instruments.len(),
            |j: int| instrument_without_owner(old(store)@.instruments[j], member@),
        ),
        final(store)@.amplifiers == Seq::new(
            old(store)@.amplifiers.len(),
            |j: int| amplifier_without_owner(old(store)@.amplifiers[j], member@),
        ),
{
    let ghost before = store@;
    let mut i: usize = 0;
    while i < store.instruments.len()
        invariant
            i <= store@.instruments.len(),
            store@.instruments.len() == before.instruments.len(),
            store@.members == before.members,
            store@.microphones == before.microphones,
            store@.amplifiers == before.amplifiers,
            store@.pa_equipment == before.pa_equipment,
            forall|j: int|
                0 <= j < i ==> #[trigger] store@.instruments[j] == instrument_without_owner(
                    before.instruments[j],
                    member@,
                ),
            forall|j: int|
                i <= j < before.instruments.len() ==> #[trigger] store@.instruments[j]
                    == before.instruments[j],
        decreases store@.instruments.len() - i,
    {
        let ghost prev = store.instruments@;
        let ghost mid = store@;
        assert(mid.instruments[i as int] == prev[i as int]@);
        let owned = match &store.instruments[i].member_id {
            Some(m) => is_same_text(m.as_str(), member),
            None => false,
        };
        if owned {
            store.instruments[i].member_id = None;
        }
        proof {
            let now = store.instruments@;
            assert(forall|j: int| 0 <= j < prev.len() && j != i ==> now[j] == prev[j]);
            assert forall|j: int| 0 <= j < prev.len() && j != i implies #[trigger] store@.instruments[j]
                == mid.instruments[j] by {
                assert(store@.instruments[j] == now[j]@);
                assert(mid.instruments[j] == prev[j]@);
            }
            assert(store@.instruments[i as int] == now[i as int]@);
        }
        i = i + 1;
    }
    let ghost half = store@;
    let mut k: usize = 0;
    while k < store.amplifiers.len()
        invariant
            k <= store@.amplifiers.len(),
            store@.amplifiers.len() == before.amplifiers.len(),
            store@.members == half.members,
            store@.microphones == half.microphones,
            store@.instruments == half.instruments,
            store@.pa_equipment == half.pa_equipment,
            half.amplifiers == before.amplifiers,
            forall|j: int|
                0 <= j < k ==> #[trigger] store@.amplifiers[j] == amplifier_without_owner(
                    before.amplifiers[j],
                    member@,
                ),
            forall|j: int|
                k <= j < before.amplifiers.len() ==> #[trigger] store@.amplifiers[j]
                    == before.amplifiers[j],
        decreases store@.amplifiers.len() - k,
    {
        let ghost prev = store.amplifiers@;
        let ghost mid = store@;
        assert(mid.amplifiers[k as int] == prev[k as int]@);
        let owned = match &store.amplifiers[k].member_id {
            Some(m) => is_same_text(m.as_str(), member),
            None => false,
        };
        if owned {
            store.amplifiers[k].member_id = None;
        }
        proof {
            let now = store.amplifiers@;
            assert(forall|j: int| 0 <= j < prev.len() && j != k ==> now[j] == prev[j]);
            assert forall|j: int| 0 <= j < prev.len() && j != k implies #[trigger] store@.amplifiers[j]
                == mid.amplifiers[j] by {
                assert(store@.amplifiers[j] == now[j]@);
                assert(mid.amplifiers[j] == prev[j]@);
            }
            assert(store@.amplifiers[k as int] == now[k as int]@);
        }
        k = k + 1;
    }
    assert(store@.instruments =~= Seq::new(
        before.instruments.len(),
        |j: int| instrument_without_owner(before.instruments[j], member@),
    ));
    assert(store@.amplifiers =~= Seq::new(
        before.amplifiers.len(),
        |j: int| amplifier_without_owner(before.amplifiers[j], member@),
    ));
}

/// Removes the member with the id `id` and takes it off the instruments and
/// amplifiers it owned.
///
/// Refused with `NotFound` where the store holds no member with the id.
pub fn members_delete(store: &mut EquipmentStore, id: String) -> (r: Result<(), StoreError>)
    ensures
        find_id(member_ids(old(store)@), id@) is None ==> r == Err::<(), StoreError>(
            StoreError::NotFound,
        ) && final(store)@ == old(store)@,
        find_id(member_ids(old(store)@), id@) is Some ==> r is Ok && final(store)@
            == without_member(old(store)@, find_id(member_ids(old(store)@), id@)->0),
{
    proof {
        lemma_idents(store);
        lemma_find_id(member_ids(store@), id@);
    }
    match position_of(&store.members, id.as_str()) {
        Some(i) => {
            release_owner(store, id.as_str());
            let ghost mid = store.members@;
            store.members.remove(i);
            assert(store@.members =~= old(store)@.members.remove(i as int));
            Ok(())
        },
        None => Err(StoreError::NotFound),
    }
}

// ------------------------------------------------------------ microphones

/// The listing keys of the microphones, in store order.
pub open spec fn microphone_keys(s: StoreView) -> Seq<OrderKeyView> {
    Seq::new(s.microphones.len(), |i: int| microphone_key(s.microphones[i]))
}

/// The microphones by name.
pub fn microphones_get_all(store: &EquipmentStore) -> (r: Vec<Microphone>)
    ensures
        r.deep_view() == arranged_by(store@.microphones, microphone_keys(store@)),
{
    assert(listing_keys(store.microphones@) =~= microphone_keys(store@));
    listed(&store.microphones)
}

/// The store with one more microphone at the end.
pub open spec fn with_microphone(s: StoreView, m: MicrophoneView) -> StoreView {
    StoreView { microphones: s.microphones.push(m), ..s }
}

/// Adds the microphone that `payload` describes under the id `id`.
///
/// Refused with `InvalidReference` where the store does not hold the gear that
/// the payload places the microphone on, and else with `DuplicateId` where it
/// already holds a microphone with the id.
pub fn microphones_insert(
    store: &mut EquipmentStore,
    id: String,
    payload: MicrophonePayload,
) -> (r: Result<Microphone, StoreError>)
    ensures
        !microphone_refs_ok(old(store)@, microphone_of(id@, payload)) ==> refused(r, StoreError::InvalidReference),
        microphone_refs_ok(old(store)@, microphone_of(id@, payload)) && microphone_ids(
            old(store)@,
        ).contains(id@) ==> refused(r, StoreError::DuplicateId),
        microphone_refs_ok(old(store)@, microphone_of(id@, payload)) && !microphone_ids(
            old(store)@,
        ).contains(id@) ==> r is Ok,
        r matches Ok(m) ==> m@ == microphone_of(id@, payload) && final(store)@ == with_microphone(
            old(store)@,
            m@,
        ),
        r is Err ==> final(store)@ == old(store)@,
{
    proof {
        lemma_idents(store);
        lemma_find_id(microphone_ids(store@), id@);
    }
    if !assignment_is_held(store, &payload.assignment) {
        return Err(StoreError::InvalidReference);
    }
    if position_of(&store.microphones, id.as_str()).is_some() {
        return Err(StoreError::DuplicateId);
    }
    let mic = Microphone::from_payload(id, payload);
    let out = mic.copy();
    store.microphones.push(mic);
    assert(store@.microphones =~= old(store)@.microphones.push(out@));
    Ok(out)
}

/// Adds the microphone that `payload` describes under a fresh id.
///
/// Refused with `InvalidReference` where the store does not hold the gear that
/// the payload places the microphone on, and else with `DuplicateId` where the
/// fresh id is that of a microphone of the store.
///
/// Which fresh id is drawn is not known beforehand. Where no id of that kind in
/// the store has the shape of a fresh id, none can be taken, and the call
/// succeeds unless it is refused for what the payload names.
pub fn microphones_create(store: &mut EquipmentStore, payload: MicrophonePayload) -> (r: Result<
    Microphone,
    StoreError,
>)
    ensures
        !microphone_refs_ok(old(store)@, microphone_of(Seq::empty(), payload)) ==> refused(r, StoreError::InvalidReference),
        microphone_refs_ok(old(store)@, microphone_of(Seq::empty(), payload)) && none_fresh(
            microphone_ids(old(store)@),
        ) ==> r is Ok,
        r matches Err(e) ==> (e == StoreError::InvalidReference && !microphone_refs_ok(
            old(store)@,
            microphone_of(Seq::empty(), payload),
        )) || (e == StoreError::DuplicateId && microphone_refs_ok(
            old(store)@,
            microphone_of(Seq::empty(), payload),
        )),
        r matches Ok(m) ==> is_hyphenated_id(m@.id) && !microphone_ids(old(store)@).contains(
            m@.id,
        ) && m@ == microphone_of(m@.id, payload) && final(store)@ == with_microphone(
            old(store)@,
            m@,
        ),
        r is Err ==> final(store)@ == old(store)@,
{
    microphones_insert(store, fresh_id(), payload)
}

/// The store with the microphone at position `i` replaced.
pub open spec fn with_microphone_at(s: StoreView, i: int, m: MicrophoneView) -> StoreView {
    StoreView { microphones: s.microphones.update(i, m), ..s }
}

/// Replaces the microphone that has the id of `microphone` by `microphone`.
///
/// Refused with `InvalidReference` where the store does not hold the gear that
/// `microphone` is placed on, and else with `NotFound` where it holds no
/// microphone with the id.
pub fn microphones_update(store: &mut EquipmentStore, microphone: Microphone) -> (r: Result<
    Microphone,
    StoreError,
>)
    ensures
        !microphone_refs_ok(old(store)@, microphone@) ==> refused(r, StoreError::InvalidReference),
        microphone_refs_ok(old(store)@, microphone@) && find_id(
            microphone_ids(old(store)@),
            microphone@.id,
        ) is None ==> refused(r, StoreError::NotFound),
        microphone_refs_ok(old(store)@, microphone@) && find_id(
            microphone_ids(old(store)@),
            microphone@.id,
        ) is Some ==> r is Ok,
        r matches Ok(m) ==> m@ == microphone@ && final(store)@ == with_microphone_at(
            old(store)@,
            find_id(microphone_ids(old(store)@), microphone@.id)->0,
            microphone@,
        ),
        r is Err ==> final(store)@ == old(store)@,
{
    proof {
        lemma_idents(store);
    }
    if !assignment_is_held(store, &microphone.assignment) {
        return Err(StoreError::InvalidReference);
    }
    match position_of(&store.microphones, microphone.id.as_str()) {
        Some(i) => {
            let out = microphone.copy();
            store.microphones[i] = microphone;
            assert(store@.microphones =~= old(store)@.microphones.update(i as int, out@));
            Ok(out)
        },
        None => Err(StoreError::NotFound),
    }
}

/// A member without its vocal microphone, if that is `microphone`.
pub open spec fn member_without_vocal_mic(m: BandMemberView, microphone: Seq<char>) -> BandMemberView {
    if m.vocal_mic_id == Some(microphone) {
        BandMemberView { vocal_mic_id: None, ..m }
    } else {
        m
    }
}

/// The store without the microphone at position `i`; the members who sang into
/// it name no vocal microphone.
pub open spec fn without_microphone(s: StoreView, i: int) -> StoreView {
    StoreView {
        microphones: s.microphones.remove(i),
        members: Seq::new(
            s.members.len(),
            |j: int| member_without_vocal_mic(s.members[j], s.microphones[i].id),
        ),
        ..s
    }
}

/// Takes the vocal microphone `microphone` off every member.
fn release_vocal_mic(store: &mut EquipmentStore, microphone: &str)
    ensures
        final(store)@.microphones == old(store)@.microphones,
        final(store)@.instruments == old(store)@.instruments,
        final(store)@.amplifiers == old(store)@.amplifiers,
        final(store)@.pa_equipment == old(store)@.pa_equipment,
        final(store)@.members == Seq::new(
            old(store)@.members.len(),
            |j: int| member_without_vocal_mic(old(store)@.members[j], microphone@),
        ),
{
    let ghost before = store@;
    let mut i: usize = 0;
    while i < store.members.len()
        invariant
            i <= store@.members.len(),
            store@.members.len() == before.members.len(),
            store@.microphones == before.microphones,
            store@.instruments == before.instruments,
            store@.amplifiers == before.amplifiers,
            store@.pa_equipment == before.pa_equipment,
            forall|j: int|
                0 <= j < i ==> #[trigger] store@.members[j] == member_without_vocal_mic(
                    before.members[j],
                    microphone@,
                ),
            forall|j: int|
                i <= j < before.members.len() ==> #[trigger] store@.members[j]
                    == before.members[j],
        decreases store@.members.len() - i,
    {
        let ghost prev = store.members@;
        let ghost mid = store@;
        assert(mid.members[i as int] == prev[i as int]@);
        let sings = match &store.members[i].vocal_mic_id {
            Some(m) => is_same_text(m.as_str(), microphone),
            None => false,
        };
        if sings {
            store.members[i].vocal_mic_id = None;
        }
        proof {
            let now = store.members@;
            assert(forall|j: int| 0 <= j < prev.len() && j != i ==> now[j] == prev[j]);
            assert forall|j: int| 0 <= j < prev.len() && j != i implies #[trigger] store@.members[j]
                == mid.members[j] by {
                assert(store@.members[j] == now[j]@);
                assert(mid.members[j] == prev[j]@);
            }
            assert(store@.members[i as int] == now[i as int]@);
        }
        i = i + 1;
    }
    assert(store@.members =~= Seq::new(
        before.members.len(),
        |j: int| member_without_vocal_mic(before.members[j], microphone@),
    ));
}

/// Removes the microphone with the id `id` and takes it off the members who
/// sang into it.
///
/// Refused with `NotFound` where the store holds no microphone with the id.
pub fn microphones_delete(store: &mut EquipmentStore, id: String) -> (r: Result<(), StoreError>)
    ensures
        find_id(microphone_ids(old(store)@), id@) is None ==> r == Err::<(), StoreError>(
            StoreError::NotFound,
        ) && final(store)@ == old(store)@,
        find_id(microphone_ids(old(store)@), id@) is Some ==> r is Ok && final(store)@
            == without_microphone(old(store)@, find_id(microphone_ids(old(store)@), id@)->0),
{
    proof {
        lemma_idents(store);
        lemma_find_id(microphone_ids(store@), id@);
    }
    match position_of(&store.microphones, id.as_str()) {
        Some(i) => {
            release_vocal_mic(store, id.as_str());
            store.microphones.remove(i);
            assert(store@.microphones =~= old(store)@.microphones.remove(i as int));
            Ok(())
        },
        None => Err(StoreError::NotFound),
    }
}

} // verus!
