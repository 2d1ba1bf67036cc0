//! The changes to routing and assignment: which microphones are placed on an
//! instrument or an amplifier, and which instrument feeds an amplifier.
//!
//! A microphone is placed on at most one piece of gear; an amplifier is fed by
//! at most one instrument. Both changes keep that so.

use vstd::prelude::*;
use vstd::string::StringExecFns;
use crate::channels::{is_source, lemma_sources_sound, sources_of, SourceView};
use crate::model::{
    Assignment, AssignmentView, InstrumentView, MicrophoneView, Routing, TargetKind,
};
use crate::store::{
    amplifier_ids, instrument_ids, lemma_find_id, microphone_ids, EquipmentStore, StoreError,
    StoreView,
};
use crate::text::{copy_text, holds_text, is_same_text};

verus! {

/// The store holds the gear of kind `kind` with the id `id`.
pub open spec fn holds_target(s: StoreView, kind: TargetKind, id: Seq<char>) -> bool {
    match kind {
        TargetKind::Instrument => instrument_ids(s).contains(id),
        TargetKind::Amplifier => amplifier_ids(s).contains(id),
    }
}

/// The store holds a microphone for each of the ids.
pub open spec fn holds_microphones(s: StoreView, mic_ids: Seq<Seq<char>>) -> bool {
    forall|k: int| 0 <= k < mic_ids.len() ==> microphone_ids(s).contains(#[trigger] mic_ids[k])
}

/// The assignment to the gear of kind `kind` with the id `target`.
pub open spec fn placed_on(kind: TargetKind, target: Seq<char>) -> AssignmentView {
    AssignmentView::AssignedTo { kind, target_id: target }
}

/// A microphone after the microphones `mic_ids` were placed on the gear: placed
/// there if it is one of them, taken off if it stood there before, else as it was.
pub open spec fn reassigned(
    mic: MicrophoneView,
    kind: TargetKind,
    target: Seq<char>,
    mic_ids: Seq<Seq<char>>,
) -> MicrophoneView {
    if mic_ids.contains(mic.id) {
        MicrophoneView { assignment: placed_on(kind, target), ..mic }
    } else if mic.assignment == placed_on(kind, target) {
        MicrophoneView { assignment: AssignmentView::Unassigned, ..mic }
    } else {
        mic
    }
}

/// The store after just the microphones `mic_ids` were placed on the gear of
/// kind `kind` with the id `target`.
pub open spec fn with_assignments(
    s: StoreView,
    kind: TargetKind,
    target: Seq<char>,
    mic_ids: Seq<Seq<char>>,
) -> StoreView {
    StoreView {
        microphones: Seq::new(
            s.microphones.len(),
            |i: int| reassigned(s.microphones[i], kind, target, mic_ids),
        ),
        ..s
    }
}

/// An instrument after the instrument `chosen` was made the one that feeds the
/// amplifier `amp`: linked and routed through the amplifier if it is the chosen
/// one, unlinked and routed directly if it fed the amplifier before, else as it was.
pub open spec fn relinked(
    inst: InstrumentView,
    amp: Seq<char>,
    chosen: Option<Seq<char>>,
) -> InstrumentView {
    if chosen == Some(inst.id) {
        InstrumentView { amp_id: Some(amp), routing: Routing::Mic, ..inst }
    } else if inst.amp_id == Some(amp) {
        InstrumentView { amp_id: None, routing: Routing::DirectInjection, ..inst }
    } else {
        inst
    }
}

/// The store after the instrument `chosen`, or none, was made the one that feeds
/// the amplifier `amp`.
pub open spec fn with_link(s: StoreView, amp: Seq<char>, chosen: Option<Seq<char>>) -> StoreView {
    StoreView {
        instruments: Seq::new(s.instruments.len(), |i: int| relinked(s.instruments[i], amp, chosen)),
        ..s
    }
}

/// Whether the store holds a microphone for each of the ids.
pub fn has_microphones(store: &EquipmentStore, mic_ids: &Vec<String>) -> (r: bool)
    ensures
        r == holds_microphones(store@, mic_ids.deep_view()),
{
    let mut k: usize = 0;
    while k < mic_ids.len()
        invariant
            k <= mic_ids@.len(),
            forall|j: int|
                0 <= j < k ==> microphone_ids(store@).contains(#[trigger] mic_ids.deep_view()[j]),
        decreases mic_ids@.len() - k,
    {
        let found = store.find_microphone(mic_ids[k].as_str());
        proof {
            lemma_find_id(microphone_ids(store@), mic_ids@[k as int]@);
            assert(mic_ids.deep_view()[k as int] == mic_ids@[k as int]@);
        }
        if found.is_none() {
            assert(!microphone_ids(store@).contains(mic_ids.deep_view()[k as int]));
            return false;
        }
        k = k + 1;
    }
    true
}

/// Whether the store holds the gear of kind `kind` with the id `id`.
pub fn has_target(store: &EquipmentStore, kind: TargetKind, id: &str) -> (r: bool)
    ensures
        r == holds_target(store@, kind, id@),
{
    proof {
        lemma_find_id(instrument_ids(store@), id@);
        lemma_find_id(amplifier_ids(store@), id@);
    }
    match kind {
        TargetKind::Instrument => store.find_instrument(id).is_some(),
        TargetKind::Amplifier => store.find_amplifier(id).is_some(),
    }
}

/// Places just the microphones `mic_ids` on the gear of kind `kind` with the id
/// `target_id`: every microphone that stood there is taken off, then each of
/// `mic_ids` is placed there, whatever it was placed on before.
///
/// Refused with `InvalidReference` where the store does not hold the gear, and
/// else with `NotFound` where it does not hold one of the microphones.
pub fn set_microphone_assignments(
    store: &mut EquipmentStore,
    kind: TargetKind,
    target_id: &str,
    mic_ids: &Vec<String>,
) -> (r: Result<(), StoreError>)
    ensures
        !holds_target(old(store)@, kind, target_id@) ==> r == Err::<(), StoreError>(
            StoreError::InvalidReference,
        ),
        holds_target(old(store)@, kind, target_id@) && !holds_microphones(
            old(store)@,
            mic_ids.deep_view(),
        ) ==> r == Err::<(), StoreError>(StoreError::NotFound),
        holds_target(old(store)@, kind, target_id@) && holds_microphones(
            old(store)@,
            mic_ids.deep_view(),
        ) ==> r is Ok,
        r is Ok ==> final(store)@ == with_assignments(
            old(store)@,
            kind,
            target_id@,
            mic_ids.deep_view(),
        ),
        r is Err ==> final(store)@ == old(store)@,
{
    if !has_target(store, kind, target_id) {
        return Err(StoreError::InvalidReference);
    }
    if !has_microphones(store, mic_ids) {
        return Err(StoreError::NotFound);
    }
    let ghost before = store@;
    let ghost wanted = mic_ids.deep_view();
    let mut i: usize = 0;
    while i < store.microphones.len()
        invariant
            i <= store@.microphones.len(),
            wanted == mic_ids.deep_view(),
            store@.microphones.len() == before.microphones.len(),
            store@.members == before.members,
            store@.instruments == before.instruments,
            store@.amplifiers == before.amplifiers,
            store@.pa_equipment == before.pa_equipment,
            forall|j: int|
                0 <= j < i ==> #[trigger] store@.microphones[j] == reassigned(
                    before.microphones[j],
                    kind,
                    target_id@,
                    wanted,
                ),
            forall|j: int|
                i <= j < before.microphones.len() ==> #[trigger] store@.microphones[j]
                    == before.microphones[j],
        decreases store@.microphones.len() - i,
    {
        let ghost prev = store.microphones@;
        let ghost mid = store@;
        assert(mid.microphones[i as int] == prev[i as int]@);
        if holds_text(mic_ids, store.microphones[i].id.as_str()) {
            store.microphones[i].assignment = Assignment::AssignedTo {
                kind,
                target_id: String::from_str(target_id),
            };
        } else if store.microphones[i].assignment.points_at(kind, target_id) {
            store.microphones[i].assignment = Assignment::Unassigned;
        }
        proof {
            let now = store.microphones@;
            assert(now.len() == prev.len());
            assert(forall|j: int| 0 <= j < prev.len() && j != i ==> now[j] == prev[j]);
            assert(now[i as int]@ == reassigned(prev[i as int]@, kind, target_id@, wanted));
            assert forall|j: int| 0 <= j < prev.len() && j != i implies #[trigger] store@.microphones[j]
                == mid.microphones[j] by {
                assert(store@.microphones[j] == now[j]@);
                assert(mid.microphones[j] == prev[j]@);
            }
            assert(store@.microphones[i as int] == now[i as int]@);
        }
        i = i + 1;
    }
    assert(store@.microphones =~= with_assignments(before, kind, target_id@, wanted).microphones);
    Ok(())
}

/// Places just the microphones `mic_ids` on the instrument `instrument_id`.
///
/// Refused with `InvalidReference` where the store does not hold the instrument,
/// and else with `NotFound` where it does not hold one of the microphones.
pub fn instrument_mics_set(
    store: &mut EquipmentStore,
    instrument_id: String,
    mic_ids: Vec<String>,
) -> (r: Result<(), StoreError>)
    ensures
        !holds_target(old(store)@, TargetKind::Instrument, instrument_id@) ==> r == Err::<
            (),
            StoreError,
        >(StoreError::InvalidReference),
        holds_target(old(store)@, TargetKind::Instrument, instrument_id@) && !holds_microphones(
            old(store)@,
            mic_ids.deep_view(),
        ) ==> r == Err::<(), StoreError>(StoreError::NotFound),
        holds_target(old(store)@, TargetKind::Instrument, instrument_id@) && holds_microphones(
            old(store)@,
            mic_ids.deep_view(),
        ) ==> r is Ok,
        r is Ok ==> final(store)@ == with_assignments(
            old(store)@,
            TargetKind::Instrument,
            instrument_id@,
            mic_ids.deep_view(),
        ),
        r is Err ==> final(store)@ == old(store)@,
{
    set_microphone_assignments(store, TargetKind::Instrument, instrument_id.as_str(), &mic_ids)
}

/// Places just the microphones `mic_ids` on the amplifier `amplifier_id`.
///
/// Refused with `InvalidReference` where the store does not hold the amplifier,
/// and else with `NotFound` where it does not hold one of the microphones.
pub fn amplifier_mics_set(
    store: &mut EquipmentStore,
    amplifier_id: String,
    mic_ids: Vec<String>,
) -> (r: Result<(), StoreError>)
    ensures
        !holds_target(old(store)@, TargetKind::Amplifier, amplifier_id@) ==> r == Err::<
            (),
            StoreError,
        >(StoreError::InvalidReference),
        holds_target(old(store)@, TargetKind::Amplifier, amplifier_id@) && !holds_microphones(
            old(store)@,
            mic_ids.deep_view(),
        ) ==> r == Err::<(), StoreError>(StoreError::NotFound),
        holds_target(old(store)@, TargetKind::Amplifier, amplifier_id@) && holds_microphones(
            old(store)@,
            mic_ids.deep_view(),
        ) ==> r is Ok,
        r is Ok ==> final(store)@ == with_assignments(
            old(store)@,
            TargetKind::Amplifier,
            amplifier_id@,
            mic_ids.deep_view(),
        ),
        r is Err ==> final(store)@ == old(store)@,
{
    set_microphone_assignments(store, TargetKind::Amplifier, amplifier_id.as_str(), &mic_ids)
}

/// Makes the instrument `instrument_id`, or none, the one that feeds the
/// amplifier `amp_id`: every instrument that fed the amplifier is unlinked and
/// routed directly, then the chosen instrument is linked and routed through the
/// amplifier.
///
/// Refused with `InvalidReference` where the store does not hold the amplifier,
/// and else with `NotFound` where it does not hold the chosen instrument.
pub fn amplifiers_update_instrument_link(
    store: &mut EquipmentStore,
    amp_id: String,
    instrument_id: Option<String>,
) -> (r: Result<(), StoreError>)
    ensures
        !amplifier_ids(old(store)@).contains(amp_id@) ==> r == Err::<(), StoreError>(
            StoreError::InvalidReference,
        ),
        amplifier_ids(old(store)@).contains(amp_id@) && (instrument_id matches Some(x)
            && !instrument_ids(old(store)@).contains(x@)) ==> r == Err::<(), StoreError>(
            StoreError::NotFound,
        ),
        amplifier_ids(old(store)@).contains(amp_id@) && (instrument_id matches Some(x)
            ==> instrument_ids(old(store)@).contains(x@)) ==> r is Ok,
        r is Ok ==> final(store)@ == with_link(old(store)@, amp_id@, instrument_id.deep_view()),
        r is Err ==> final(store)@ == old(store)@,
{
    if !has_target(store, TargetKind::Amplifier, amp_id.as_str()) {
        return Err(StoreError::InvalidReference);
    }
    match &instrument_id {
        Some(x) => {
            if !has_target(store, TargetKind::Instrument, x.as_str()) {
                return Err(StoreError::NotFound);
            }
        },
        None => {},
    }
    let ghost before = store@;
    let ghost chosen = instrument_id.deep_view();
    let mut i: usize = 0;
    while i < store.instruments.len()
        invariant
            i <= store@.instruments.len(),
            chosen == instrument_id.deep_view(),
            store@.instruments.len() == before.instruments.len(),
            store@.members == before.members,
            store@.microphones == before.microphones,
            store@.amplifiers == before.amplifiers,
            store@.pa_equipment == before.pa_equipment,
            forall|j: int|
                0 <= j < i ==> #[trigger] store@.instruments[j] == relinked(
                    before.instruments[j],
                    amp_id@,
                    chosen,
                ),
            forall|j: int|
                i <= j < before.instruments.len() ==> #[trigger] store@.instruments[j]
                    == before.instruments[j],
        decreases store@.instruments.len() - i,
    {
        let ghost prev = store.instruments@;
        let ghost mid = store@;
        assert(mid.instruments[i as int] == prev[i as int]@);
        let is_chosen = match &instrument_id {
            Some(x) => is_same_text(store.instruments[i].id.as_str(), x.as_str()),
            None => false,
        };
        let fed = match &store.instruments[i].amp_id {
            Some(a) => is_same_text(a.as_str(), amp_id.as_str()),
            None => false,
        };
        if is_chosen {
            store.instruments[i].amp_id = Some(copy_text(&amp_id));
            store.instruments[i].routing = Routing::Mic;
        } else if fed {
            store.instruments[i].amp_id = None;
            store.instruments[i].routing = Routing::DirectInjection;
        }
        proof {
            let now = store.instruments@;
            assert(now.len() == prev.len());
            assert(forall|j: int| 0 <= j < prev.len() && j != i ==> now[j] == prev[j]);
            assert(now[i as int]@ == relinked(prev[i as int]@, amp_id@, chosen));
            assert forall|j: int| 0 <= j < prev.len() && j != i implies #[trigger] store@.instruments[j]
                == mid.instruments[j] by {
                assert(store@.instruments[j] == now[j]@);
                assert(mid.instruments[j] == prev[j]@);
            }
            assert(store@.instruments[i as int] == now[i as int]@);
        }
        i = i + 1;
    }
    assert(store@.instruments =~= with_link(before, amp_id@, chosen).instruments);
    Ok(())
}

/// The gear that a microphone entry of the list was derived from has the kind
/// `kind` and the id `target`. Holds of every entry that is no microphone entry
/// of microphone `m`.
pub open spec fn derived_from(
    s: StoreView,
    src: SourceView,
    m: int,
    kind: TargetKind,
    target: Seq<char>,
) -> bool {
    match src {
        SourceView::DrumMic { microphone, instrument } => microphone == m ==> kind
            == TargetKind::Instrument && s.instruments[instrument].id == target,
        SourceView::AmplifierMic { microphone, amplifier } => microphone == m ==> kind
            == TargetKind::Amplifier && s.amplifiers[amplifier].id == target,
        _ => true,
    }
}

/// No microphone entry of the list was derived from the gear of kind `kind`
/// with the id `target`.
pub open spec fn not_derived_from(
    s: StoreView,
    src: SourceView,
    kind: TargetKind,
    target: Seq<char>,
) -> bool {
    match src {
        SourceView::DrumMic { microphone, instrument } => !(kind == TargetKind::Instrument
            && s.instruments[instrument].id == target),
        SourceView::AmplifierMic { microphone, amplifier } => !(kind == TargetKind::Amplifier
            && s.amplifiers[amplifier].id == target),
        _ => true,
    }
}

/// The gear a microphone source names is the gear that its microphone is placed on.
pub proof fn lemma_source_target(s: StoreView, src: SourceView)
    requires
        is_source(s, src),
    ensures
        src matches SourceView::DrumMic { microphone, instrument } ==> s.microphones[microphone].assignment
            == placed_on(TargetKind::Instrument, s.instruments[instrument].id),
        src matches SourceView::AmplifierMic { microphone, amplifier }
            ==> s.microphones[microphone].assignment == placed_on(
            TargetKind::Amplifier,
            s.amplifiers[amplifier].id,
        ),
{
    match src {
        SourceView::DrumMic { microphone, instrument } => {
            lemma_find_id(instrument_ids(s), s.microphones[microphone].assignment->target_id);
        },
        SourceView::AmplifierMic { microphone, amplifier } => {
            lemma_find_id(amplifier_ids(s), s.microphones[microphone].assignment->target_id);
        },
        _ => {},
    }
}

/// Exclusivity: once microphone `m` was placed on a piece of gear, it is placed
/// there and nowhere else, and every microphone entry of `m` in the channel list
/// is derived from that gear; none is left from what `m` was placed on before.
pub proof fn lemma_assignment_exclusive(
    s: StoreView,
    kind: TargetKind,
    target: Seq<char>,
    mic_ids: Seq<Seq<char>>,
    m: int,
)
    requires
        0 <= m < s.microphones.len(),
        mic_ids.contains(s.microphones[m].id),
    ensures
        with_assignments(s, kind, target, mic_ids).microphones[m].assignment == placed_on(
            kind,
            target,
        ),
        forall|k: int|
            0 <= k < sources_of(with_assignments(s, kind, target, mic_ids)).len() ==> derived_from(
                with_assignments(s, kind, target, mic_ids),
                #[trigger] sources_of(with_assignments(s, kind, target, mic_ids))[k],
                m,
                kind,
                target,
            ),
{
    let t = with_assignments(s, kind, target, mic_ids);
    lemma_sources_sound(t);
    assert forall|k: int| 0 <= k < sources_of(t).len() implies derived_from(
        t,
        #[trigger] sources_of(t)[k],
        m,
        kind,
        target,
    ) by {
        lemma_source_target(t, sources_of(t)[k]);
    }
}

/// Clearing: once no microphone is left on a piece of gear, every microphone
/// that stood there is unassigned, no microphone is placed there, the channel
/// list has no microphone entry derived from the gear, and clearing once more
/// changes nothing.
pub proof fn lemma_assignments_cleared(s: StoreView, kind: TargetKind, target: Seq<char>)
    ensures
        forall|m: int|
            0 <= m < s.microphones.len() && (#[trigger] s.microphones[m]).assignment == placed_on(
                kind,
                target,
            ) ==> with_assignments(s, kind, target, Seq::empty()).microphones[m].assignment
                == AssignmentView::Unassigned,
        forall|m: int|
            0 <= m < s.microphones.len() ==> (#[trigger] with_assignments(
                s,
                kind,
                target,
                Seq::empty(),
            ).microphones[m]).assignment != placed_on(kind, target),
        forall|k: int|
            0 <= k < sources_of(with_assignments(s, kind, target, Seq::empty())).len()
                ==> not_derived_from(
                with_assignments(s, kind, target, Seq::empty()),
                #[trigger] sources_of(with_assignments(s, kind, target, Seq::empty()))[k],
                kind,
                target,
            ),
        with_assignments(with_assignments(s, kind, target, Seq::empty()), kind, target, Seq::empty())
            == with_assignments(s, kind, target, Seq::empty()),
{
    let none = Seq::<Seq<char>>::empty();
    let t = with_assignments(s, kind, target, none);
    lemma_sources_sound(t);
    assert forall|k: int| 0 <= k < sources_of(t).len() implies not_derived_from(
        t,
        #[trigger] sources_of(t)[k],
        kind,
        target,
    ) by {
        lemma_source_target(t, sources_of(t)[k]);
        lemma_source_in_range_of(t, sources_of(t)[k]);
    }
    assert(with_assignments(t, kind, target, none).microphones =~= t.microphones);
}

/// The microphone a microphone source names is a microphone of the store.
pub proof fn lemma_source_in_range_of(s: StoreView, src: SourceView)
    requires
        is_source(s, src),
    ensures
        src matches SourceView::DrumMic { microphone, instrument } ==> 0 <= microphone
            < s.microphones.len(),
        src matches SourceView::AmplifierMic { microphone, amplifier } ==> 0 <= microphone
            < s.microphones.len(),
{
}

/// An amplifier is fed by the chosen instrument alone: once the link was set,
/// every instrument that names the amplifier is the chosen one.
pub proof fn lemma_link_exclusive(s: StoreView, amp: Seq<char>, chosen: Option<Seq<char>>)
    ensures
        forall|i: int|
            0 <= i < s.instruments.len() && (#[trigger] with_link(
                s,
                amp,
                chosen,
            ).instruments[i]).amp_id == Some(amp) ==> chosen == Some(s.instruments[i].id),
        forall|i: int|
            0 <= i < s.instruments.len() && chosen == Some(s.instruments[i].id) ==> (#[trigger] with_link(
                s,
                amp,
                chosen,
            ).instruments[i]).amp_id == Some(amp) && with_link(s, amp, chosen).instruments[i].routing
                == Routing::Mic,
        forall|i: int|
            0 <= i < s.instruments.len() && (#[trigger] s.instruments[i]).amp_id == Some(amp)
                && chosen != Some(s.instruments[i].id) ==> with_link(
                s,
                amp,
                chosen,
            ).instruments[i].amp_id.is_none() && with_link(s, amp, chosen).instruments[i].routing
                == Routing::DirectInjection,
{
}

} // verus!
