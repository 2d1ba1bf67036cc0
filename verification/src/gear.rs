//! Adding, changing, removing and listing instruments, amplifiers and
//! front-of-house gear.
//!
//! Removing an instrument or an amplifier takes every microphone off it;
//! removing an amplifier also unlinks the instruments that fed it.

use vstd::prelude::*;
use crate::assignments::{set_microphone_assignments, with_assignments};
use crate::ids::{fresh_id, is_hyphenated_id, none_fresh};
use crate::model::{
    amplifier_of, instrument_of, pa_of, Amplifier, AmplifierPayload, AmplifierView, Instrument,
    InstrumentPayload, InstrumentView, PaEquipment, PaEquipmentView, PaPayload, TargetKind,
};
use crate::ordering::OrderKeyView;
use crate::records::{amplifier_refs_ok, instrument_refs_ok, lemma_idents, names_one_of};
use crate::store::{
    amplifier_ids, amplifier_key, arranged_by, find_id, instrument_ids, instrument_key,
    lemma_find_id, listed, listing_keys, pa_ids, pa_key, position_of, refused, EquipmentStore,
    StoreError, StoreView,
};
use crate::text::is_same_text;

verus! {

// ------------------------------------------------------------ instruments

/// The listing keys of the instruments, in store order.
pub open spec fn instrument_keys(s: StoreView) -> Seq<OrderKeyView> {
    Seq::new(s.instruments.len(), |i: int| instrument_key(s.instruments[i]))
}

/// The instruments by channel order, then by name.
pub fn instruments_get_all(store: &EquipmentStore) -> (r: Vec<Instrument>)
    ensures
        r.deep_view() == arranged_by(store@.instruments, instrument_keys(store@)),
{
    assert(listing_keys(store.instruments@) =~= instrument_keys(store@));
    listed(&store.instruments)
}

/// The store with one more instrument at the end.
pub open spec fn with_instrument(s: StoreView, i: InstrumentView) -> StoreView {
    StoreView { instruments: s.instruments.push(i), ..s }
}

/// Adds the instrument that `payload` describes under the id `id`.
///
/// Refused with `InvalidReference` where the store does not hold the owner or
/// the amplifier that the payload names, and else with `DuplicateId` where it
/// already holds an instrument with the id.
pub fn instruments_insert(
    store: &mut EquipmentStore,
    id: String,
    payload: InstrumentPayload,
) -> (r: Result<Instrument, StoreError>)
    ensures
        !instrument_refs_ok(old(store)@, instrument_of(id@, payload)) ==> refused(
            r,
            StoreError::InvalidReference,
        ),
        instrument_refs_ok(old(store)@, instrument_of(id@, payload)) && instrument_ids(
            old(store)@,
        ).contains(id@) ==> refused(r, StoreError::DuplicateId),
        instrument_refs_ok(old(store)@, instrument_of(id@, payload)) && !instrument_ids(
            old(store)@,
        ).contains(id@) ==> r is Ok,
        r matches Ok(i) ==> i@ == instrument_of(id@, payload) && final(store)@ == with_instrument(
            old(store)@,
            i@,
        ),
        r is Err ==> final(store)@ == old(store)@,
{
    proof {
        lemma_idents(store);
        lemma_find_id(instrument_ids(store@), id@);
    }
    if !names_one_of(&store.members, &payload.member_id) {
        return Err(StoreError::InvalidReference);
    }
    if !names_one_of(&store.amplifiers, &payload.amp_id) {
        return Err(StoreError::InvalidReference);
    }
    if position_of(&store.instruments, id.as_str()).is_some() {
        return Err(StoreError::DuplicateId);
    }
    let instrument = Instrument::from_payload(id, payload);
    let out = instrument.copy();
    store.instruments.push(instrument);
    assert(store@.instruments =~= old(store)@.instruments.push(out@));
    Ok(out)
}

/// Adds the instrument that `payload` describes under a fresh id.
///
/// Refused with `InvalidReference` where the store does not hold the owner or
/// the amplifier that the payload names, and else with `DuplicateId` where the
/// fresh id is that of an instrument of the store.
///
/// Which fresh id is drawn is not known beforehand. Where no id of that kind in
/// the store has the shape of a fresh id, none can be taken, and the call
/// succeeds unless it is refused for what the payload names.
pub fn instruments_create(store: &mut EquipmentStore, payload: InstrumentPayload) -> (r: Result<
    Instrument,
    StoreError,
>)
    ensures
        !instrument_refs_ok(old(store)@, instrument_of(Seq::empty(), payload)) ==> refused(
            r,
            StoreError::InvalidReference,
        ),
        instrument_refs_ok(old(store)@, instrument_of(Seq::empty(), payload)) && none_fresh(
            instrument_ids(old(store)@),
        ) ==> r is Ok,
        r matches Err(e) ==> (e == StoreError::InvalidReference && !instrument_refs_ok(
            old(store)@,
            instrument_of(Seq::empty(), payload),
        )) || (e == StoreError::DuplicateId && instrument_refs_ok(
            old(store)@,
            instrument_of(Seq::empty(), payload),
        )),
        r matches Ok(i) ==> is_hyphenated_id(i@.id) && !instrument_ids(old(store)@).contains(
            i@.id,
        ) && i@ == instrument_of(i@.id, payload) && final(store)@ == with_instrument(
            old(store)@,
            i@,
        ),
        r is Err ==> final(store)@ == old(store)@,
{
    instruments_insert(store, fresh_id(), payload)
}

/// The store with the instrument at position `i` replaced.
pub open spec fn with_instrument_at(s: StoreView, i: int, x: InstrumentView) -> StoreView {
    StoreView { instruments: s.instruments.update(i, x), ..s }
}

/// Replaces the instrument that has the id of `instrument` by `instrument`.
///
/// Refused with `InvalidReference` where the store does not hold the owner or
/// the amplifier that `instrument` names, and else with `NotFound` where it
/// holds no instrument with the id.
pub fn instruments_update(store: &mut EquipmentStore, instrument: Instrument) -> (r: Result<
    Instrument,
    StoreError,
>)
    ensures
        !instrument_refs_ok(old(store)@, instrument@) ==> refused(
            r,
            StoreError::InvalidReference,
        ),
        instrument_refs_ok(old(store)@, instrument@) && find_id(
            instrument_ids(old(store)@),
            instrument@.id,
        ) is None ==> refused(r, StoreError::NotFound),
        instrument_refs_ok(old(store)@, instrument@) && find_id(
            instrument_ids(old(store)@),
            instrument@.id,
        ) is Some ==> r is Ok,
        r matches Ok(i) ==> i@ == instrument@ && final(store)@ == with_instrument_at(
            old(store)@,
            find_id(instrument_ids(old(store)@), instrument@.id)->0,
            instrument@,
        ),
        r is Err ==> final(store)@ == old(store)@,
{
    proof {
        lemma_idents(store);
    }
    if !names_one_of(&store.members, &instrument.member_id) {
        return Err(StoreError::InvalidReference);
    }
    if !names_one_of(&store.amplifiers, &instrument.amp_id) {
        return Err(StoreError::InvalidReference);
    }
    match position_of(&store.instruments, instrument.id.as_str()) {
        Some(i) => {
            let out = instrument.copy();
            store.instruments[i] = instrument;
            assert(store@.instruments =~= old(store)@.instruments.update(i as int, out@));
            Ok(out)
        },
        None => Err(StoreError::NotFound),
    }
}

/// The store without the instrument at position `i`; the microphones that
/// stood on it are unassigned.
pub open spec fn without_instrument(s: StoreView, i: int) -> StoreView {
    StoreView {
        instruments: s.instruments.remove(i),
        ..with_assignments(s, TargetKind::Instrument, s.instruments[i].id, Seq::empty())
    }
}

/// Removes the instrument with the id `id` and takes every microphone off it.
///
/// Refused with `NotFound` where the store holds no instrument with the id.
pub fn instruments_delete(store: &mut EquipmentStore, id: String) -> (r: Result<(), StoreError>)
    ensures
        find_id(instrument_ids(old(store)@), id@) is None ==> r == Err::<(), StoreError>(
            StoreError::NotFound,
        ) && final(store)@ == old(store)@,
        find_id(instrument_ids(old(store)@), id@) is Some ==> r is Ok && final(store)@
            == without_instrument(old(store)@, find_id(instrument_ids(old(store)@), id@)->0),
{
    proof {
        lemma_idents(store);
        lemma_find_id(instrument_ids(store@), id@);
    }
    match position_of(&store.instruments, id.as_str()) {
        Some(i) => {
            let none: Vec<String> = Vec::new();
            assert(none.deep_view() =~= Seq::<Seq<char>>::empty());
            let cleared = set_microphone_assignments(
                store,
                TargetKind::Instrument,
                id.as_str(),
                &none,
            );
            assert(cleared is Ok);
            store.instruments.remove(i);
            assert(store@.instruments =~= old(store)@.instruments.remove(i as int));
            Ok(())
        },
        None => Err(StoreError::NotFound),
    }
}

// ------------------------------------------------------------- amplifiers

/// The listing keys of the amplifiers, in store order.
pub open spec fn amplifier_keys(s: StoreView) -> Seq<OrderKeyView> {
    Seq::new(s.amplifiers.len(), |i: int| amplifier_key(s.amplifiers[i]))
}

/// The amplifiers by name.
pub fn amplifiers_get_all(store: &EquipmentStore) -> (r: Vec<Amplifier>)
    ensures
        r.deep_view() == arranged_by(store@.amplifiers, amplifier_keys(store@)),
{
    assert(listing_keys(store.amplifiers@) =~= amplifier_keys(store@));
    listed(&store.amplifiers)
}

/// The store with one more amplifier at the end.
pub open spec fn with_amplifier(s: StoreView, a: AmplifierView) -> StoreView {
    StoreView { amplifiers: s.amplifiers.push(a), ..s }
}

/// Adds the amplifier that `payload` describes under the id `id`.
///
/// Refused with `InvalidReference` where the store does not hold the owner that
/// the payload names, and else with `DuplicateId` where it already holds an
/// amplifier with the id.
pub fn amplifiers_insert(
    store: &mut EquipmentStore,
    id: String,
    payload: AmplifierPayload,
) -> (r: Result<Amplifier, StoreError>)
    ensures
        !amplifier_refs_ok(old(store)@, amplifier_of(id@, payload)) ==> refused(
            r,
            StoreError::InvalidReference,
        ),
        amplifier_refs_ok(old(store)@, amplifier_of(id@, payload)) && amplifier_ids(
            old(store)@,
        ).contains(id@) ==> refused(r, StoreError::DuplicateId),
        amplifier_refs_ok(old(store)@, amplifier_of(id@, payload)) && !amplifier_ids(
            old(store)@,
        ).contains(id@) ==> r is Ok,
        r matches Ok(a) ==> a@ == amplifier_of(id@, payload) && final(store)@ == with_amplifier(
            old(store)@,
            a@,
        ),
        r is Err ==> final(store)@ == old(store)@,
{
    proof {
        lemma_idents(store);
        lemma_find_id(amplifier_ids(store@), id@);
    }
    if !names_one_of(&store.members, &payload.member_id) {
        return Err(StoreError::InvalidReference);
    }
    if position_of(&store.amplifiers, id.as_str()).is_some() {
        return Err(StoreError::DuplicateId);
    }
    let amplifier = Amplifier::from_payload(id, payload);
    let out = amplifier.copy();
    store.amplifiers.push(amplifier);
    assert(store@.amplifiers =~= old(store)@.amplifiers.push(out@));
    Ok(out)
}

/// Adds the amplifier that `payload` describes under a fresh id.
///
/// Refused with `InvalidReference` where the store does not hold the owner that
/// the payload names, and else with `DuplicateId` where the fresh id is that of
/// an amplifier of the store.
///
/// Which fresh id is drawn is not known beforehand. Where no id of that kind in
/// the store has the shape of a fresh id, none can be taken, and the call
/// succeeds unless it is refused for what the payload names.
pub fn amplifiers_create(store: &mut EquipmentStore, payload: AmplifierPayload) -> (r: Result<
    Amplifier,
    StoreError,
>)
    ensures
        !amplifier_refs_ok(old(store)@, amplifier_of(Seq::empty(), payload)) ==> refused(
            r,
            StoreError::InvalidReference,
        ),
        amplifier_refs_ok(old(store)@, amplifier_of(Seq::empty(), payload)) && none_fresh(
            amplifier_ids(old(store)@),
        ) ==> r is Ok,
        r matches Err(e) ==> (e == StoreError::InvalidReference && !amplifier_refs_ok(
            old(store)@,
            amplifier_of(Seq::empty(), payload),
        )) || (e == StoreError::DuplicateId && amplifier_refs_ok(
            old(store)@,
            amplifier_of(Seq::empty(), payload),
        )),
        r matches Ok(a) ==> is_hyphenated_id(a@.id) && !amplifier_ids(old(store)@).contains(a@.id)
            && a@ == amplifier_of(a@.id, payload) && final(store)@ == with_amplifier(
            old(store)@,
            a@,
        ),
        r is Err ==> final(store)@ == old(store)@,
{
    amplifiers_insert(store, fresh_id(), payload)
}

/// The store with the amplifier at position `i` replaced.
pub open spec fn with_amplifier_at(s: StoreView, i: int, a: AmplifierView) -> StoreView {
    StoreView { amplifiers: s.amplifiers.update(i, a), ..s }
}

/// Replaces the amplifier that has the id of `amplifier` by `amplifier`.
///
/// Refused with `InvalidReference` where the store does not hold the owner that
/// `amplifier` names, and else with `NotFound` where it holds no amplifier with
/// the id.
pub fn amplifiers_update(store: &mut EquipmentStore, amplifier: Amplifier) -> (r: Result<
    Amplifier,
    StoreError,
>)
    ensures
        !amplifier_refs_ok(old(store)@, amplifier@) ==> refused(r, StoreError::InvalidReference),
        amplifier_refs_ok(old(store)@, amplifier@) && find_id(
            amplifier_ids(old(store)@),
            amplifier@.id,
        ) is None ==> refused(r, StoreError::NotFound),
        amplifier_refs_ok(old(store)@, amplifier@) && find_id(
            amplifier_ids(old(store)@),
            amplifier@.id,
        ) is Some ==> r is Ok,
        r matches Ok(a) ==> a@ == amplifier@ && final(store)@ == with_amplifier_at(
            old(store)@,
            find_id(amplifier_ids(old(store)@), amplifier@.id)->0,
            amplifier@,
        ),
        r is Err ==> final(store)@ == old(store)@,
{
    proof {
        lemma_idents(store);
    }
    if !names_one_of(&store.members, &amplifier.member_id) {
        return Err(StoreError::InvalidReference);
    }
    match position_of(&store.amplifiers, amplifier.id.as_str()) {
        Some(i) => {
            let out = amplifier.copy();
            store.amplifiers[i] = amplifier;
            assert(store@.amplifiers =~= old(store)@.amplifiers.update(i as int, out@));
            Ok(out)
        },
        None => Err(StoreError::NotFound),
    }
}

/// An instrument without its amplifier, if that is `amplifier`.
pub open spec fn instrument_without_amplifier(
    i: InstrumentView,
    amplifier: Seq<char>,
) -> InstrumentView {
    if i.amp_id == Some(amplifier) {
        InstrumentView { amp_id: None, ..i }
    } else {
        i
    }
}

/// The store without the amplifier at position `i`; the microphones that stood
/// on it are unassigned, and the instruments that fed it name no amplifier.
pub open spec fn without_amplifier(s: StoreView, i: int) -> StoreView {
    StoreView {
        amplifiers: s.amplifiers.remove(i),
        instruments: Seq::new(
            s.instruments.len(),
            |j: int| instrument_without_amplifier(s.instruments[j], s.amplifiers[i].id),
        ),
        ..with_assignments(s, TargetKind::Amplifier, s.amplifiers[i].id, Seq::empty())
    }
}

/// Takes the amplifier `amplifier` off every instrument.
fn release_amplifier(store: &mut EquipmentStore, amplifier: &str)
    ensures
        final(store)@.members == old(store)@.members,
        final(store)@.microphones == old(store)@.microphones,
        final(store)@.amplifiers == old(store)@.amplifiers,
        final(store)@.pa_equipment == old(store)@.pa_equipment,
        final(store)@.instruments == Seq::new(
            old(store)@.instruments.len(),
            |j: int| instrument_without_amplifier(old(store)@.instruments[j], amplifier@),
        ),
{
    let ghost before = store@;
    let mut i: usize = 0;
    while i < store.instruments.len()
        invariant
            i <= store@.instruments.len(),
            store@.instruments.len() == before.instruments.len(),
            store@.members == before.members,
            store@.microphones == before.microphones,
            store@.amplifiers == before.amplifiers,
            store@.pa_equipment == before.pa_equipment,
            forall|j: int|
                0 <= j < i ==> #[trigger] store@.instruments[j] == instrument_without_amplifier(
                    before.instruments[j],
                    amplifier@,
                ),
            forall|j: int|
                i <= j < before.instruments.len() ==> #[trigger] store@.instruments[j]
                    == before.instruments[j],
        decreases store@.instruments.len() - i,
    {
        let ghost prev = store.instruments@;
        let ghost mid = store@;
        assert(mid.instruments[i as int] == prev[i as int]@);
        let fed = match &store.instruments[i].amp_id {
            Some(a) => is_same_text(a.as_str(), amplifier),
            None => false,
        };
        if fed {
            store.instruments[i].amp_id = None;
        }
        proof {
            let now = store.instruments@;
            assert(forall|j: int| 0 <= j < prev.len() && j != i ==> now[j] == prev[j]);
            assert forall|j: int| 0 <= j < prev.len() && j != i implies #[trigger] store@.instruments[j]
                == mid.instruments[j] by {
                assert(store@.instruments[j] == now[j]@);
                assert(mid.instruments[j] == prev[j]@);
            }
            assert(store@.instruments[i as int] == now[i as int]@);
        }
        i = i + 1;
    }
    assert(store@.instruments =~= Seq::new(
        before.instruments.len(),
        |j: int| instrument_without_amplifier(before.instruments[j], amplifier@),
    ));
}

/// Removes the amplifier with the id `id`, takes every microphone off it and
/// unlinks the instruments that fed it.
///
/// Refused with `NotFound` where the store holds no amplifier with the id.
pub fn amplifiers_delete(store: &mut EquipmentStore, id: String) -> (r: Result<(), StoreError>)
    ensures
        find_id(amplifier_ids(old(store)@), id@) is None ==> r == Err::<(), StoreError>(
            StoreError::NotFound,
        ) && final(store)@ == old(store)@,
        find_id(amplifier_ids(old(store)@), id@) is Some ==> r is Ok && final(store)@
            == without_amplifier(old(store)@, find_id(amplifier_ids(old(store)@), id@)->0),
{
    proof {
        lemma_idents(store);
        lemma_find_id(amplifier_ids(store@), id@);
    }
    match position_of(&store.amplifiers, id.as_str()) {
        Some(i) => {
            let none: Vec<String> = Vec::new();
            assert(none.deep_view() =~= Seq::<Seq<char>>::empty());
            let cleared = set_microphone_assignments(
                store,
                TargetKind::Amplifier,
                id.as_str(),
                &none,
            );
            assert(cleared is Ok);
            release_amplifier(store, id.as_str());
            store.amplifiers.remove(i);
            assert(store@.amplifiers =~= old(store)@.amplifiers.remove(i as int));
            Ok(())
        },
        None => Err(StoreError::NotFound),
    }
}

// --------------------------------------------------- front-of-house gear

/// The listing keys of the front-of-house gear, in store order.
pub open spec fn pa_keys(s: StoreView) -> Seq<OrderKeyView> {
    Seq::new(s.pa_equipment.len(), |i: int| pa_key(s.pa_equipment[i]))
}

/// The front-of-house gear by category, then by name.
pub fn pa_get_all(store: &EquipmentStore) -> (r: Vec<PaEquipment>)
    ensures
        r.deep_view() == arranged_by(store@.pa_equipment, pa_keys(store@)),
{
    assert(listing_keys(store.pa_equipment@) =~= pa_keys(store@));
    listed(&store.pa_equipment)
}

/// The store with one more piece of front-of-house gear at the end.
pub open spec fn with_pa(s: StoreView, p: PaEquipmentView) -> StoreView {
    StoreView { pa_equipment: s.pa_equipment.push(p), ..s }
}

/// Adds the piece of gear that `payload` describes under the id `id`.
///
/// Refused with `DuplicateId` where the store already holds a piece with the id.
pub fn pa_insert(store: &mut EquipmentStore, id: String, payload: PaPayload) -> (r: Result<
    PaEquipment,
    StoreError,
>)
    ensures
        pa_ids(old(store)@).contains(id@) ==> refused(r, StoreError::DuplicateId),
        !pa_ids(old(store)@).contains(id@) ==> r is Ok,
        r matches Ok(p) ==> p@ == pa_of(id@, payload) && final(store)@ == with_pa(
            old(store)@,
            p@,
        ),
        r is Err ==> final(store)@ == old(store)@,
{
    proof {
        lemma_idents(store);
        lemma_find_id(pa_ids(store@), id@);
    }
    if position_of(&store.pa_equipment, id.as_str()).is_some() {
        return Err(StoreError::DuplicateId);
    }
    let item = PaEquipment::from_payload(id, payload);
    let out = item.copy();
    store.pa_equipment.push(item);
    assert(store@.pa_equipment =~= old(store)@.pa_equipment.push(out@));
    Ok(out)
}

/// Adds the piece of gear that `payload` describes under a fresh id.
///
/// Refused with `DuplicateId` where the fresh id is that of a piece of the store.
///
/// Which fresh id is drawn is not known beforehand. Where no id of that kind in
/// the store has the shape of a fresh id, none can be taken, and the call
/// succeeds unless it is refused for what the payload names.
pub fn pa_create(store: &mut EquipmentStore, payload: PaPayload) -> (r: Result<
    PaEquipment,
    StoreError,
>)
    ensures
        none_fresh(pa_ids(old(store)@)) ==> r is Ok,
        r matches Err(e) ==> e == StoreError::DuplicateId,
        r matches Ok(p) ==> is_hyphenated_id(p@.id) && !pa_ids(old(store)@).contains(p@.id) && p@
            == pa_of(p@.id, payload) && final(store)@ == with_pa(old(store)@, p@),
        r is Err ==> final(store)@ == old(store)@,
{
    pa_insert(store, fresh_id(), payload)
}

/// The store with the piece of gear at position `i` replaced.
pub open spec fn with_pa_at(s: StoreView, i: int, p: PaEquipmentView) -> StoreView {
    StoreView { pa_equipment: s.pa_equipment.update(i, p), ..s }
}

/// Replaces the piece of gear that has the id of `item` by `item`.
///
/// Refused with `NotFound` where the store holds no piece with the id.
pub fn pa_update(store: &mut EquipmentStore, item: PaEquipment) -> (r: Result<
    PaEquipment,
    StoreError,
>)
    ensures
        find_id(pa_ids(old(store)@), item@.id) is None ==> refused(r, StoreError::NotFound),
        find_id(pa_ids(old(store)@), item@.id) is Some ==> r is Ok,
        r matches Ok(p) ==> p@ == item@ && final(store)@ == with_pa_at(
            old(store)@,
            find_id(pa_ids(old(store)@), item@.id)->0,
            item@,
        ),
        r is Err ==> final(store)@ == old(store)@,
{
    proof {
        lemma_idents(store);
    }
    match position_of(&store.pa_equipment, item.id.as_str()) {
        Some(i) => {
            let out = item.copy();
            store.pa_equipment[i] = item;
            assert(store@.pa_equipment =~= old(store)@.pa_equipment.update(i as int, out@));
            Ok(out)
        },
        None => Err(StoreError::NotFound),
    }
}

/// The store without the piece of gear at position `i`.
pub open spec fn without_pa(s: StoreView, i: int) -> StoreView {
    StoreView { pa_equipment: s.pa_equipment.remove(i), ..s }
}

/// Removes the piece of gear with the id `id`.
///
/// Refused with `NotFound` where the store holds no piece with the id.
pub fn pa_delete(store: &mut EquipmentStore, id: String) -> (r: Result<(), StoreError>)
    ensures
        find_id(pa_ids(old(store)@), id@) is None ==> r == Err::<(), StoreError>(
            StoreError::NotFound,
        ) && final(store)@ == old(store)@,
        find_id(pa_ids(old(store)@), id@) is Some ==> r is Ok && final(store)@ == without_pa(
            old(store)@,
            find_id(pa_ids(old(store)@), id@)->0,
        ),
{
    proof {
        lemma_idents(store);
        lemma_find_id(pa_ids(store@), id@);
    }
    match position_of(&store.pa_equipment, id.as_str()) {
        Some(i) => {
            store.pa_equipment.remove(i);
            assert(store@.pa_equipment =~= old(store)@.pa_equipment.remove(i as int));
            Ok(())
        },
        None => Err(StoreError::NotFound),
    }
}

} // verus!
