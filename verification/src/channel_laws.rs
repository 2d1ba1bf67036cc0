//! What holds of every channel list, said in terms of the records of the store.

use vstd::prelude::*;
use crate::channels::{
    channel_list, has_microphone, is_direct, is_drums, is_source, lemma_every_source_once,
    lemma_sources_sound, sources_of, stands_once, SourceView,
};
use crate::model::{AssignmentView, ChannelEntryView, TargetKind};
use crate::store::{amplifier_ids, find_id, instrument_ids, lemma_find_id, microphone_ids, StoreView};

verus! {

/// Microphone `m` is placed on the instrument at position `i`.
pub open spec fn stands_on_instrument(s: StoreView, m: int, i: int) -> bool {
    &&& 0 <= m < s.microphones.len()
    &&& s.microphones[m].assignment matches AssignmentView::AssignedTo {
        kind: TargetKind::Instrument,
        target_id,
    }
    &&& find_id(instrument_ids(s), target_id) == Some(i)
}

/// Microphone `m` is placed on the amplifier at position `a`.
pub open spec fn stands_on_amplifier(s: StoreView, m: int, a: int) -> bool {
    &&& 0 <= m < s.microphones.len()
    &&& s.microphones[m].assignment matches AssignmentView::AssignedTo {
        kind: TargetKind::Amplifier,
        target_id,
    }
    &&& find_id(amplifier_ids(s), target_id) == Some(a)
}

/// Determinism: two lists resolved from stores that hold the same records are
/// the same list, entry by entry, field by field, channel numbers included.
pub proof fn lemma_same_records_same_list(
    a: StoreView,
    b: StoreView,
    first: Seq<ChannelEntryView>,
    second: Seq<ChannelEntryView>,
)
    requires
        a == b,
        first == channel_list(a),
        second == channel_list(b),
    ensures
        first == second,
{
}

/// The list has one entry for each source, in the order of the sources, and
/// its entries are numbered 1, 2, 3 and so on.
pub proof fn lemma_numbered_from_one(s: StoreView)
    ensures
        channel_list(s).len() == sources_of(s).len(),
        forall|k: int|
            0 <= k < channel_list(s).len() ==> (#[trigger] channel_list(s)[k]).channel_number == k
                + 1,
{
}

/// Completeness, kind by kind: the list holds exactly one entry
/// - for every microphone placed on a drum instrument of the store,
/// - for every instrument other than drums that goes to the console directly,
/// - for every microphone placed on an amplifier of the store,
/// - for every amplifier that goes to the console directly and carries no
///   microphone,
/// - for every member who names a vocal microphone.
pub proof fn lemma_completeness(s: StoreView)
    ensures
        forall|m: int, i: int|
            stands_on_instrument(s, m, i) && is_drums(s.instruments[i].instrument_type)
                ==> #[trigger] stands_once(
                sources_of(s),
                SourceView::DrumMic { microphone: m, instrument: i },
            ),
        forall|i: int|
            0 <= i < s.instruments.len() && !is_drums(s.instruments[i].instrument_type)
                && is_direct(s.instruments[i].routing) ==> #[trigger] stands_once(
                sources_of(s),
                SourceView::DirectInstrument { instrument: i },
            ),
        forall|m: int, a: int|
            stands_on_amplifier(s, m, a) ==> #[trigger] stands_once(
                sources_of(s),
                SourceView::AmplifierMic { microphone: m, amplifier: a },
            ),
        forall|a: int|
            0 <= a < s.amplifiers.len() && is_direct(s.amplifiers[a].routing) && !has_microphone(
                s,
                s.amplifiers[a].id,
            ) ==> #[trigger] stands_once(
                sources_of(s),
                SourceView::DirectAmplifier { amplifier: a },
            ),
        forall|b: int|
            0 <= b < s.members.len() && s.members[b].vocal_mic_id is Some ==> #[trigger] stands_once(
                sources_of(s),
                SourceView::Vocal {
                    member: b,
                    microphone: find_id(microphone_ids(s), s.members[b].vocal_mic_id->0),
                },
            ),
{
    lemma_every_source_once(s);
    assert forall|m: int, i: int|
        stands_on_instrument(s, m, i) && is_drums(
            s.instruments[i].instrument_type,
        ) implies #[trigger] stands_once(
        sources_of(s),
        SourceView::DrumMic { microphone: m, instrument: i },
    ) by {
        assert(is_source(s, SourceView::DrumMic { microphone: m, instrument: i }));
    }
    assert forall|i: int|
        0 <= i < s.instruments.len() && !is_drums(s.instruments[i].instrument_type) && is_direct(
            s.instruments[i].routing,
        ) implies #[trigger] stands_once(
        sources_of(s),
        SourceView::DirectInstrument { instrument: i },
    ) by {
        assert(is_source(s, SourceView::DirectInstrument { instrument: i }));
    }
    assert forall|m: int, a: int| stands_on_amplifier(s, m, a) implies #[trigger] stands_once(
        sources_of(s),
        SourceView::AmplifierMic { microphone: m, amplifier: a },
    ) by {
        assert(is_source(s, SourceView::AmplifierMic { microphone: m, amplifier: a }));
    }
    assert forall|a: int|
        0 <= a < s.amplifiers.len() && is_direct(s.amplifiers[a].routing) && !has_microphone(
            s,
            s.amplifiers[a].id,
        ) implies #[trigger] stands_once(
        sources_of(s),
        SourceView::DirectAmplifier { amplifier: a },
    ) by {
        assert(is_source(s, SourceView::DirectAmplifier { amplifier: a }));
    }
    assert forall|b: int|
        0 <= b < s.members.len() && s.members[b].vocal_mic_id is Some implies #[trigger] stands_once(
        sources_of(s),
        SourceView::Vocal {
            member: b,
            microphone: find_id(microphone_ids(s), s.members[b].vocal_mic_id->0),
        },
    ) by {
        assert(is_source(
            s,
            SourceView::Vocal {
                member: b,
                microphone: find_id(microphone_ids(s), s.members[b].vocal_mic_id->0),
            },
        ));
    }
}

/// An amplifier has a microphone entry or a direct entry, never both: where the
/// list holds the direct entry of an amplifier, it holds no microphone entry on
/// an amplifier with that id.
pub proof fn lemma_microphone_or_direct(s: StoreView)
    ensures
        forall|j: int, k: int|
            0 <= j < sources_of(s).len() && 0 <= k < sources_of(s).len() ==> !(
            #[trigger] sources_of(s)[j] matches SourceView::DirectAmplifier { amplifier }
                && #[trigger] sources_of(s)[k] matches SourceView::AmplifierMic {
                microphone,
                amplifier: other,
            } && s.amplifiers[other].id == s.amplifiers[amplifier].id),
{
    lemma_sources_sound(s);
    assert forall|j: int, k: int|
        0 <= j < sources_of(s).len() && 0 <= k < sources_of(s).len() implies !(
    #[trigger] sources_of(s)[j] matches SourceView::DirectAmplifier { amplifier }
        && #[trigger] sources_of(s)[k] matches SourceView::AmplifierMic {
        microphone,
        amplifier: other,
    } && s.amplifiers[other].id == s.amplifiers[amplifier].id) by {
        let direct = sources_of(s)[j];
        let miked = sources_of(s)[k];
        if direct is DirectAmplifier && miked is AmplifierMic {
            let a = direct->DirectAmplifier_amplifier;
            let m = miked->AmplifierMic_microphone;
            let other = miked->AmplifierMic_amplifier;
            assert(is_source(s, direct));
            assert(is_source(s, miked));
            lemma_find_id(amplifier_ids(s), s.microphones[m].assignment->target_id);
            if s.amplifiers[other].id == s.amplifiers[a].id {
                assert(s.microphones[m].assignment == (AssignmentView::AssignedTo {
                    kind: TargetKind::Amplifier,
                    target_id: s.amplifiers[a].id,
                }));
                assert(has_microphone(s, s.amplifiers[a].id));
            }
        }
    }
}

} // verus!
