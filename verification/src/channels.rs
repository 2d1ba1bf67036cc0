//! The channel list resolver.
//!
//! The list is derived in stages, one per category of console input. A stage
//! picks the records of its category, gives each a sort key, and arranges them.
//! The stages are then joined in the fixed order of the categories and the
//! entries are numbered from 1.
//!
//! Every entry has a source: the records, by their positions in the store, that
//! the entry stands for. The list of sources is derived first; the entries are
//! made from it.

use vstd::prelude::*;
use vstd::string::StringExecFns;
use crate::model::{
    Assignment, AssignmentView, ChannelEntry, ChannelEntryView, MonoStereo, Routing, TargetKind,
};
use crate::ordering::{
    is_ordering, key_views, lemma_ordering_is_ordering, ordering, positions, sort_positions,
    OrderKey, OrderKeyView,
};
use crate::store::{
    amplifier_ids, as_position, find_id, instrument_ids, lemma_find_id, microphone_ids,
    EquipmentStore, StoreView,
};
use crate::text::{copy_opt_text, copy_text, holds_text, is_same_text};

verus! {

/// The categories of console inputs, in the order in which the list names them.
#[derive(Clone, Copy, Debug, PartialEq, Eq, Structural)]
pub enum Category {
    /// Microphones placed on drum instruments.
    DrumMics,
    /// Instruments other than drums that go to the console directly.
    DirectInstruments,
    /// Microphones placed on amplifiers.
    AmplifierMics,
    /// Amplifiers that go to the console directly and carry no microphone.
    DirectAmplifiers,
    /// Members with a vocal microphone.
    Vocals,
}

/// The place of a category in the list, from 1.
pub open spec fn category_rank(c: Category) -> int {
    match c {
        Category::DrumMics => 1,
        Category::DirectInstruments => 2,
        Category::AmplifierMics => 3,
        Category::DirectAmplifiers => 4,
        Category::Vocals => 5,
    }
}

/// What an entry of the channel list stands for. The numbers are positions in
/// the lists of the store.
#[derive(Clone, Copy, Debug, PartialEq, Eq)]
pub enum Source {
    DrumMic { microphone: usize, instrument: usize },
    DirectInstrument { instrument: usize },
    AmplifierMic { microphone: usize, amplifier: usize },
    DirectAmplifier { amplifier: usize },
    /// `microphone` is the member's vocal microphone where the store holds it.
    Vocal { member: usize, microphone: Option<usize> },
}

/// Mathematical value of a [`Source`].
pub enum SourceView {
    DrumMic { microphone: int, instrument: int },
    DirectInstrument { instrument: int },
    AmplifierMic { microphone: int, amplifier: int },
    DirectAmplifier { amplifier: int },
    Vocal { member: int, microphone: Option<int> },
}

impl View for Source {
    type V = SourceView;

    open spec fn view(&self) -> SourceView {
        match self {
            Source::DrumMic { microphone, instrument } => SourceView::DrumMic {
                microphone: *microphone as int,
                instrument: *instrument as int,
            },
            Source::DirectInstrument { instrument } => SourceView::DirectInstrument {
                instrument: *instrument as int,
            },
            Source::AmplifierMic { microphone, amplifier } => SourceView::AmplifierMic {
                microphone: *microphone as int,
                amplifier: *amplifier as int,
            },
            Source::DirectAmplifier { amplifier } => SourceView::DirectAmplifier {
                amplifier: *amplifier as int,
            },
            Source::Vocal { member, microphone } => SourceView::Vocal {
                member: *member as int,
                microphone: as_position(*microphone),
            },
        }
    }
}

/// The values of a list of sources.
pub open spec fn source_views(sources: Seq<Source>) -> Seq<SourceView> {
    Seq::new(sources.len(), |i: int| sources[i]@)
}

/// The category of a source.
pub open spec fn source_category(src: SourceView) -> Category {
    match src {
        SourceView::DrumMic { .. } => Category::DrumMics,
        SourceView::DirectInstrument { .. } => Category::DirectInstruments,
        SourceView::AmplifierMic { .. } => Category::AmplifierMics,
        SourceView::DirectAmplifier { .. } => Category::DirectAmplifiers,
        SourceView::Vocal { .. } => Category::Vocals,
    }
}

/// The record a source was picked for: the microphone of a microphone entry, the
/// instrument or amplifier of a direct entry, the member of a vocal entry.
pub open spec fn source_origin(src: SourceView) -> int {
    match src {
        SourceView::DrumMic { microphone, .. } => microphone,
        SourceView::DirectInstrument { instrument } => instrument,
        SourceView::AmplifierMic { microphone, .. } => microphone,
        SourceView::DirectAmplifier { amplifier } => amplifier,
        SourceView::Vocal { member, .. } => member,
    }
}

/// A candidate of a stage: a source and the key it is arranged by.
pub struct RowView {
    pub key: OrderKeyView,
    pub source: SourceView,
}

/// Whether a routing goes to the console without a microphone.
pub open spec fn is_direct(r: Routing) -> bool {
    r == Routing::DirectInjection || r == Routing::Multi
}

/// Whether an instrument type is the drums.
pub open spec fn is_drums(instrument_type: Seq<char>) -> bool {
    instrument_type == "drums"@
}

/// The place of an instrument type among the direct instruments: bass, guitar,
/// keyboard, then every other type.
pub open spec fn type_rank(instrument_type: Seq<char>) -> u8 {
    if instrument_type == "bass"@ {
        1
    } else if instrument_type == "guitar"@ {
        2
    } else if instrument_type == "keyboard"@ {
        3
    } else {
        4
    }
}

/// Whether some microphone of the store is placed on the amplifier named `amplifier_id`.
pub open spec fn has_microphone(s: StoreView, amplifier_id: Seq<char>) -> bool {
    exists|m: int|
        0 <= m < s.microphones.len() && (#[trigger] s.microphones[m]).assignment == (
        AssignmentView::AssignedTo { kind: TargetKind::Amplifier, target_id: amplifier_id })
}

/// Whether a member carries the role tag `vocalist`.
pub open spec fn is_vocalist(roles: Seq<Seq<char>>) -> bool {
    roles.contains("vocalist"@)
}

/// The drum-microphone candidate of microphone `m`: the microphone is placed on
/// an instrument that the store holds and whose type is the drums. It is
/// arranged by the instrument's channel order, then the instrument's name, then
/// its own name.
pub open spec fn drum_row(s: StoreView, m: int) -> Option<RowView> {
    match s.microphones[m].assignment {
        AssignmentView::AssignedTo { kind: TargetKind::Instrument, target_id } => match find_id(
            instrument_ids(s),
            target_id,
        ) {
            Some(i) => if is_drums(s.instruments[i].instrument_type) {
                Some(
                    RowView {
                        key: OrderKeyView {
                            group: 0,
                            order: s.instruments[i].channel_order,
                            name: s.instruments[i].name,
                            tie: s.microphones[m].name,
                        },
                        source: SourceView::DrumMic { microphone: m, instrument: i },
                    },
                )
            } else {
                None
            },
            None => None,
        },
        _ => None,
    }
}

/// The direct candidate of instrument `i`: the instrument is no drum and goes to
/// the console directly. It is arranged by the place of its type, then its
/// channel order, then its name.
pub open spec fn direct_instrument_row(s: StoreView, i: int) -> Option<RowView> {
    let inst = s.instruments[i];
    if !is_drums(inst.instrument_type) && is_direct(inst.routing) {
        Some(
            RowView {
                key: OrderKeyView {
                    group: type_rank(inst.instrument_type),
                    order: inst.channel_order,
                    name: inst.name,
                    tie: Seq::empty(),
                },
                source: SourceView::DirectInstrument { instrument: i },
            },
        )
    } else {
        None
    }
}

/// The amplifier-microphone candidate of microphone `m`: the microphone is
/// placed on an amplifier that the store holds. It is arranged by the
/// amplifier's name, then its own name.
pub open spec fn amplifier_mic_row(s: StoreView, m: int) -> Option<RowView> {
    match s.microphones[m].assignment {
        AssignmentView::AssignedTo { kind: TargetKind::Amplifier, target_id } => match find_id(
            amplifier_ids(s),
            target_id,
        ) {
            Some(a) => Some(
                RowView {
                    key: OrderKeyView {
                        group: 0,
                        order: 0,
                        name: s.amplifiers[a].name,
                        tie: s.microphones[m].name,
                    },
                    source: SourceView::AmplifierMic { microphone: m, amplifier: a },
                },
            ),
            None => None,
        },
        _ => None,
    }
}

/// The direct candidate of amplifier `a`: the amplifier goes to the console
/// directly and no microphone is placed on it. It is arranged by its name.
pub open spec fn direct_amplifier_row(s: StoreView, a: int) -> Option<RowView> {
    let amp = s.amplifiers[a];
    if is_direct(amp.routing) && !has_microphone(s, amp.id) {
        Some(
            RowView {
                key: OrderKeyView { group: 0, order: 0, name: amp.name, tie: Seq::empty() },
                source: SourceView::DirectAmplifier { amplifier: a },
            },
        )
    } else {
        None
    }
}

/// The vocal candidate of member `b`: the member names a vocal microphone. It
/// is arranged with the vocalists first, then by the member's sort order, then
/// by the member's name.
pub open spec fn vocal_row(s: StoreView, b: int) -> Option<RowView> {
    let member = s.members[b];
    match member.vocal_mic_id {
        Some(mic_id) => Some(
            RowView {
                key: OrderKeyView {
                    group: if is_vocalist(member.roles) {
                        0
                    } else {
                        1
                    },
                    order: member.sort_order,
                    name: member.name,
                    tie: Seq::empty(),
                },
                source: SourceView::Vocal {
                    member: b,
                    microphone: find_id(microphone_ids(s), mic_id),
                },
            },
        ),
        None => None,
    }
}

/// The candidate that the stage of category `c` makes of its record `i`, if any.
pub open spec fn row(s: StoreView, c: Category, i: int) -> Option<RowView> {
    match c {
        Category::DrumMics => drum_row(s, i),
        Category::DirectInstruments => direct_instrument_row(s, i),
        Category::AmplifierMics => amplifier_mic_row(s, i),
        Category::DirectAmplifiers => direct_amplifier_row(s, i),
        Category::Vocals => vocal_row(s, i),
    }
}

/// The number of records that the stage of category `c` looks at.
pub open spec fn domain_len(s: StoreView, c: Category) -> nat {
    match c {
        Category::DrumMics => s.microphones.len(),
        Category::DirectInstruments => s.instruments.len(),
        Category::AmplifierMics => s.microphones.len(),
        Category::DirectAmplifiers => s.amplifiers.len(),
        Category::Vocals => s.members.len(),
    }
}

/// The candidates of category `c` among its first `n` records, in store order.
pub open spec fn rows_upto(s: StoreView, c: Category, n: nat) -> Seq<RowView>
    decreases n,
{
    if n == 0 {
        Seq::empty()
    } else {
        let rest = rows_upto(s, c, (n - 1) as nat);
        match row(s, c, n - 1) {
            Some(r) => rest.push(r),
            None => rest,
        }
    }
}

/// The candidates of category `c`, in store order.
pub open spec fn rows(s: StoreView, c: Category) -> Seq<RowView> {
    rows_upto(s, c, domain_len(s, c))
}

/// The keys of a list of candidates.
pub open spec fn row_keys(rows: Seq<RowView>) -> Seq<OrderKeyView> {
    Seq::new(rows.len(), |i: int| rows[i].key)
}

/// The sources of a list of candidates, arranged by their keys; candidates with
/// level keys stay in the order of the list.
pub open spec fn arrange(rows: Seq<RowView>) -> Seq<SourceView> {
    Seq::new(rows.len(), |k: int| rows[ordering(row_keys(rows))[k]].source)
}

/// The sources of category `c`, in the order of the channel list.
pub open spec fn stage(s: StoreView, c: Category) -> Seq<SourceView> {
    arrange(rows(s, c))
}

/// The sources of the channel list: the five stages, joined in the order of
/// their categories.
pub open spec fn sources_of(s: StoreView) -> Seq<SourceView> {
    stage(s, Category::DrumMics) + stage(s, Category::DirectInstruments) + stage(
        s,
        Category::AmplifierMics,
    ) + stage(s, Category::DirectAmplifiers) + stage(s, Category::Vocals)
}

/// The positions of a source lie within the lists of the store.
pub open spec fn in_range(s: StoreView, src: SourceView) -> bool {
    match src {
        SourceView::DrumMic { microphone, instrument } => 0 <= microphone < s.microphones.len()
            && 0 <= instrument < s.instruments.len(),
        SourceView::DirectInstrument { instrument } => 0 <= instrument < s.instruments.len(),
        SourceView::AmplifierMic { microphone, amplifier } => 0 <= microphone
            < s.microphones.len() && 0 <= amplifier < s.amplifiers.len(),
        SourceView::DirectAmplifier { amplifier } => 0 <= amplifier < s.amplifiers.len(),
        SourceView::Vocal { member, microphone } => 0 <= member < s.members.len() && (
        microphone matches Some(m) ==> 0 <= m < s.microphones.len()),
    }
}

/// The text between the name of a microphone and the name of what it is placed on.
pub open spec fn on_separator() -> Seq<char> {
    " \u{2014} "@
}

/// The text before the name of an amplifier that goes to the console directly.
pub open spec fn amplifier_prefix() -> Seq<char> {
    "Amp \u{2014} "@
}

/// The text before the name of a member in a vocal entry.
pub open spec fn vocal_prefix() -> Seq<char> {
    "Voz - "@
}

/// What stands for the microphone model in an entry that has no microphone.
pub open spec fn direct_box_label() -> Seq<char> {
    "DI box / high-impedance input"@
}

/// The entry that stands for `src`, with the channel number `number`.
pub open spec fn entry_of(s: StoreView, src: SourceView, number: int) -> ChannelEntryView {
    match src {
        SourceView::DrumMic { microphone, instrument } => {
            let mic = s.microphones[microphone];
            let inst = s.instruments[instrument];
            ChannelEntryView {
                channel_number: number,
                name: mic.name + on_separator() + inst.name,
                mono_stereo: MonoStereo::Mono,
                phantom_power: mic.phantom_power,
                mic_model: mic.model,
                mic_type: Some(mic.mic_type),
                polar_pattern: mic.polar_pattern,
                notes: None,
                member_id: inst.member_id,
            }
        },
        SourceView::DirectInstrument { instrument } => {
            let inst = s.instruments[instrument];
            ChannelEntryView {
                channel_number: number,
                name: inst.name,
                mono_stereo: inst.mono_stereo,
                phantom_power: false,
                mic_model: Some(direct_box_label()),
                mic_type: None,
                polar_pattern: None,
                notes: None,
                member_id: inst.member_id,
            }
        },
        SourceView::AmplifierMic { microphone, amplifier } => {
            let mic = s.microphones[microphone];
            let amp = s.amplifiers[amplifier];
            ChannelEntryView {
                channel_number: number,
                name: mic.name + on_separator() + amp.name,
                mono_stereo: MonoStereo::Mono,
                phantom_power: mic.phantom_power,
                mic_model: mic.model,
                mic_type: Some(mic.mic_type),
                polar_pattern: mic.polar_pattern,
                notes: None,
                member_id: amp.member_id,
            }
        },
        SourceView::DirectAmplifier { amplifier } => {
            let amp = s.amplifiers[amplifier];
            ChannelEntryView {
                channel_number: number,
                name: amplifier_prefix() + amp.name,
                mono_stereo: MonoStereo::Mono,
                phantom_power: false,
                mic_model: Some(direct_box_label()),
                mic_type: None,
                polar_pattern: None,
                notes: None,
                member_id: amp.member_id,
            }
        },
        SourceView::Vocal { member, microphone } => {
            let singer = s.members[member];
            match microphone {
                Some(m) => {
                    let mic = s.microphones[m];
                    ChannelEntryView {
                        channel_number: number,
                        name: vocal_prefix() + singer.name,
                        mono_stereo: MonoStereo::Mono,
                        phantom_power: mic.phantom_power,
                        mic_model: mic.model,
                        mic_type: Some(mic.mic_type),
                        polar_pattern: mic.polar_pattern,
                        notes: None,
                        member_id: Some(singer.id),
                    }
                },
                None => ChannelEntryView {
                    channel_number: number,
                    name: vocal_prefix() + singer.name,
                    mono_stereo: MonoStereo::Mono,
                    phantom_power: false,
                    mic_model: None,
                    mic_type: None,
                    polar_pattern: None,
                    notes: None,
                    member_id: Some(singer.id),
                },
            }
        },
    }
}

/// The entries that stand for a list of sources, numbered from 1.
pub open spec fn entries_of(s: StoreView, sources: Seq<SourceView>) -> Seq<ChannelEntryView> {
    Seq::new(sources.len(), |k: int| entry_of(s, sources[k], k + 1))
}

/// The channel list of a store.
pub open spec fn channel_list(s: StoreView) -> Seq<ChannelEntryView> {
    entries_of(s, sources_of(s))
}

/// Whether some microphone of the store is placed on the amplifier named `amplifier_id`.
pub fn amplifier_has_microphone(store: &EquipmentStore, amplifier_id: &str) -> (r: bool)
    ensures
        r == has_microphone(store@, amplifier_id@),
{
    let mut m: usize = 0;
    while m < store.microphones.len()
        invariant
            m <= store.microphones@.len(),
            forall|k: int|
                0 <= k < m ==> (#[trigger] store@.microphones[k]).assignment != (
                AssignmentView::AssignedTo {
                    kind: TargetKind::Amplifier,
                    target_id: amplifier_id@,
                }),
        decreases store.microphones@.len() - m,
    {
        if store.microphones[m].assignment.points_at(TargetKind::Amplifier, amplifier_id) {
            assert(store@.microphones[m as int].assignment == (AssignmentView::AssignedTo {
                kind: TargetKind::Amplifier,
                target_id: amplifier_id@,
            }));
            return true;
        }
        m = m + 1;
    }
    false
}

/// The place of an instrument type among the direct instruments.
pub fn instrument_type_rank(instrument_type: &str) -> (r: u8)
    ensures
        r == type_rank(instrument_type@),
{
    if is_same_text(instrument_type, "bass") {
        1
    } else if is_same_text(instrument_type, "guitar") {
        2
    } else if is_same_text(instrument_type, "keyboard") {
        3
    } else {
        4
    }
}

/// The value of an optional candidate.
pub open spec fn row_view(r: Option<(OrderKey, Source)>) -> Option<RowView> {
    match r {
        Some((key, source)) => Some(RowView { key: key@, source: source@ }),
        None => None,
    }
}

fn drum_candidate(store: &EquipmentStore, m: usize) -> (r: Option<(OrderKey, Source)>)
    requires
        m < store@.microphones.len(),
    ensures
        row_view(r) == drum_row(store@, m as int),
{
    let mic = &store.microphones[m];
    assert(store@.microphones[m as int] == mic@);
    match &mic.assignment {
        Assignment::AssignedTo { kind: TargetKind::Instrument, target_id } => {
            match store.find_instrument(target_id.as_str()) {
                Some(i) => {
                    let inst = &store.instruments[i];
                    assert(store@.instruments[i as int] == inst@);
                    if is_same_text(inst.instrument_type.as_str(), "drums") {
                        Some(
                            (
                                OrderKey {
                                    group: 0,
                                    order: inst.channel_order,
                                    name: copy_text(&inst.name),
                                    tie: copy_text(&mic.name),
                                },
                                Source::DrumMic { microphone: m, instrument: i },
                            ),
                        )
                    } else {
                        None
                    }
                },
                None => None,
            }
        },
        _ => None,
    }
}

fn direct_instrument_candidate(store: &EquipmentStore, i: usize) -> (r: Option<
    (OrderKey, Source),
>)
    requires
        i < store@.instruments.len(),
    ensures
        row_view(r) == direct_instrument_row(store@, i as int),
{
    let inst = &store.instruments[i];
    assert(store@.instruments[i as int] == inst@);
    if !is_same_text(inst.instrument_type.as_str(), "drums") && inst.routing.is_direct() {
        Some(
            (
                OrderKey {
                    group: instrument_type_rank(inst.instrument_type.as_str()),
                    order: inst.channel_order,
                    name: copy_text(&inst.name),
                    tie: String::new(),
                },
                Source::DirectInstrument { instrument: i },
            ),
        )
    } else {
        None
    }
}

fn amplifier_mic_candidate(store: &EquipmentStore, m: usize) -> (r: Option<(OrderKey, Source)>)
    requires
        m < store@.microphones.len(),
    ensures
        row_view(r) == amplifier_mic_row(store@, m as int),
{
    let mic = &store.microphones[m];
    assert(store@.microphones[m as int] == mic@);
    match &mic.assignment {
        Assignment::AssignedTo { kind: TargetKind::Amplifier, target_id } => {
            match store.find_amplifier(target_id.as_str()) {
                Some(a) => {
                    let amp = &store.amplifiers[a];
                    assert(store@.amplifiers[a as int] == amp@);
                    Some(
                        (
                            OrderKey {
                                group: 0,
                                order: 0,
                                name: copy_text(&amp.name),
                                tie: copy_text(&mic.name),
                            },
                            Source::AmplifierMic { microphone: m, amplifier: a },
                        ),
                    )
                },
                None => None,
            }
        },
        _ => None,
    }
}

fn direct_amplifier_candidate(store: &EquipmentStore, a: usize) -> (r: Option<
    (OrderKey, Source),
>)
    requires
        a < store@.amplifiers.len(),
    ensures
        row_view(r) == direct_amplifier_row(store@, a as int),
{
    let amp = &store.amplifiers[a];
    assert(store@.amplifiers[a as int] == amp@);
    if amp.routing.is_direct() && !amplifier_has_microphone(store, amp.id.as_str()) {
        Some(
            (
                OrderKey { group: 0, order: 0, name: copy_text(&amp.name), tie: String::new() },
                Source::DirectAmplifier { amplifier: a },
            ),
        )
    } else {
        None
    }
}

fn vocal_candidate(store: &EquipmentStore, b: usize) -> (r: Option<(OrderKey, Source)>)
    requires
        b < store@.members.len(),
    ensures
        row_view(r) == vocal_row(store@, b as int),
{
    let member = &store.members[b];
    assert(store@.members[b as int] == member@);
    match &member.vocal_mic_id {
        Some(mic_id) => {
            let group: u8 = if holds_text(&member.roles, "vocalist") {
                0
            } else {
                1
            };
            Some(
                (
                    OrderKey {
                        group,
                        order: member.sort_order,
                        name: copy_text(&member.name),
                        tie: String::new(),
                    },
                    Source::Vocal {
                        member: b,
                        microphone: store.find_microphone(mic_id.as_str()),
                    },
                ),
            )
        },
        None => None,
    }
}

/// The number of records that the stage of category `c` looks at.
fn domain_size(store: &EquipmentStore, c: Category) -> (r: usize)
    ensures
        r == domain_len(store@, c),
{
    match c {
        Category::DrumMics => store.microphones.len(),
        Category::DirectInstruments => store.instruments.len(),
        Category::AmplifierMics => store.microphones.len(),
        Category::DirectAmplifiers => store.amplifiers.len(),
        Category::Vocals => store.members.len(),
    }
}

/// The candidate that the stage of category `c` makes of its record `i`, if any.
fn candidate(store: &EquipmentStore, c: Category, i: usize) -> (r: Option<(OrderKey, Source)>)
    requires
        i < domain_len(store@, c),
    ensures
        row_view(r) == row(store@, c, i as int),
{
    match c {
        Category::DrumMics => drum_candidate(store, i),
        Category::DirectInstruments => direct_instrument_candidate(store, i),
        Category::AmplifierMics => amplifier_mic_candidate(store, i),
        Category::DirectAmplifiers => direct_amplifier_candidate(store, i),
        Category::Vocals => vocal_candidate(store, i),
    }
}

/// The candidates that parallel lists of keys and sources stand for.
pub open spec fn rows_of(keys: Seq<OrderKey>, sources: Seq<Source>) -> Seq<RowView> {
    Seq::new(keys.len(), |i: int| RowView { key: keys[i]@, source: sources[i]@ })
}

/// Runs the stage of category `c` and puts its sources behind those in `out`.
fn stage_into(store: &EquipmentStore, c: Category, out: &mut Vec<Source>)
    ensures
        source_views(final(out)@) == source_views(old(out)@) + stage(store@, c),
{
    let n = domain_size(store, c);
    let mut keys: Vec<OrderKey> = Vec::new();
    let mut sources: Vec<Source> = Vec::new();
    let mut i: usize = 0;
    assert(rows_of(keys@, sources@) =~= rows_upto(store@, c, 0));
    while i < n
        invariant
            i <= n,
            n == domain_len(store@, c),
            keys@.len() == sources@.len(),
            rows_of(keys@, sources@) == rows_upto(store@, c, i as nat),
        decreases n - i,
    {
        let ghost before = rows_of(keys@, sources@);
        match candidate(store, c, i) {
            Some((key, source)) => {
                keys.push(key);
                sources.push(source);
                assert(rows_of(keys@, sources@) =~= before.push(
                    RowView { key: key@, source: source@ },
                ));
            },
            None => {
                assert(rows_of(keys@, sources@) =~= before);
            },
        }
        i = i + 1;
    }
    let ghost rs = rows(store@, c);
    let order = sort_positions(&keys);
    proof {
        assert(key_views(keys@) =~= row_keys(rs));
        lemma_ordering_is_ordering(row_keys(rs));
    }
    let ghost start = source_views(out@);
    let mut k: usize = 0;
    while k < order.len()
        invariant
            k <= order@.len(),
            order@.len() == sources@.len(),
            keys@.len() == sources@.len(),
            rs == rows_of(keys@, sources@),
            positions(order@) == ordering(row_keys(rs)),
            is_ordering(ordering(row_keys(rs)), row_keys(rs), rs.len() as int),
            source_views(out@) == start + arrange(rs).take(k as int),
        decreases order@.len() - k,
    {
        let ghost p = ordering(row_keys(rs));
        let j = order[k];
        proof {
            assert(positions(order@)[k as int] == j as int);
            assert(p.contains(p[k as int]));
        }
        let ghost prev = source_views(out@);
        out.push(sources[j]);
        proof {
            assert(arrange(rs)[k as int] == sources@[j as int]@);
            assert(arrange(rs).take(k + 1) =~= arrange(rs).take(k as int).push(
                arrange(rs)[k as int],
            ));
            assert(source_views(out@) =~= prev.push(sources@[j as int]@));
        }
        k = k + 1;
    }
    proof {
        assert(positions(order@).len() == order@.len());
        assert(arrange(rs).take(k as int) =~= arrange(rs));
    }
}

/// Derives the sources of the channel list.
pub fn channel_sources(store: &EquipmentStore) -> (out: Vec<Source>)
    ensures
        source_views(out@) == sources_of(store@),
{
    let mut out: Vec<Source> = Vec::new();
    assert(source_views(out@) =~= Seq::<SourceView>::empty());
    stage_into(store, Category::DrumMics, &mut out);
    stage_into(store, Category::DirectInstruments, &mut out);
    stage_into(store, Category::AmplifierMics, &mut out);
    stage_into(store, Category::DirectAmplifiers, &mut out);
    stage_into(store, Category::Vocals, &mut out);
    assert(source_views(out@) =~= sources_of(store@));
    out
}

/// The entry that stands for `source`, with the channel number `number`.
pub fn entry_for(store: &EquipmentStore, source: Source, number: i64) -> (r: ChannelEntry)
    requires
        in_range(store@, source@),
    ensures
        r@ == entry_of(store@, source@, number as int),
{
    match source {
        Source::DrumMic { microphone, instrument } => {
            let mic = &store.microphones[microphone];
            let inst = &store.instruments[instrument];
            assert(store@.microphones[microphone as int] == mic@);
            assert(store@.instruments[instrument as int] == inst@);
            let mut name = copy_text(&mic.name);
            name.append(" \u{2014} ");
            name.append(inst.name.as_str());
            ChannelEntry {
                channel_number: number,
                name,
                mono_stereo: MonoStereo::Mono,
                phantom_power: mic.phantom_power,
                mic_model: copy_opt_text(&mic.model),
                mic_type: Some(copy_text(&mic.mic_type)),
                polar_pattern: copy_opt_text(&mic.polar_pattern),
                notes: None,
                member_id: copy_opt_text(&inst.member_id),
            }
        },
        Source::DirectInstrument { instrument } => {
            let inst = &store.instruments[instrument];
            assert(store@.instruments[instrument as int] == inst@);
            ChannelEntry {
                channel_number: number,
                name: copy_text(&inst.name),
                mono_stereo: inst.mono_stereo,
                phantom_power: false,
                mic_model: Some(String::from_str("DI box / high-impedance input")),
                mic_type: None,
                polar_pattern: None,
                notes: None,
                member_id: copy_opt_text(&inst.member_id),
            }
        },
        Source::AmplifierMic { microphone, amplifier } => {
            let mic = &store.microphones[microphone];
            let amp = &store.amplifiers[amplifier];
            assert(store@.microphones[microphone as int] == mic@);
            assert(store@.amplifiers[amplifier as int] == amp@);
            let mut name = copy_text(&mic.name);
            name.append(" \u{2014} ");
            name.append(amp.name.as_str());
            ChannelEntry {
                channel_number: number,
                name,
                mono_stereo: MonoStereo::Mono,
                phantom_power: mic.phantom_power,
                mic_model: copy_opt_text(&mic.model),
                mic_type: Some(copy_text(&mic.mic_type)),
                polar_pattern: copy_opt_text(&mic.polar_pattern),
                notes: None,
                member_id: copy_opt_text(&amp.member_id),
            }
        },
        Source::DirectAmplifier { amplifier } => {
            let amp = &store.amplifiers[amplifier];
            assert(store@.amplifiers[amplifier as int] == amp@);
            let mut name = String::from_str("Amp \u{2014} ");
            name.append(amp.name.as_str());
            ChannelEntry {
                channel_number: number,
                name,
                mono_stereo: MonoStereo::Mono,
                phantom_power: false,
                mic_model: Some(String::from_str("DI box / high-impedance input")),
                mic_type: None,
                polar_pattern: None,
                notes: None,
                member_id: copy_opt_text(&amp.member_id),
            }
        },
        Source::Vocal { member, microphone } => {
            let singer = &store.members[member];
            assert(store@.members[member as int] == singer@);
            let mut name = String::from_str("Voz - ");
            name.append(singer.name.as_str());
            match microphone {
                Some(m) => {
                    let mic = &store.microphones[m];
                    assert(store@.microphones[m as int] == mic@);
                    ChannelEntry {
                        channel_number: number,
                        name,
                        mono_stereo: MonoStereo::Mono,
                        phantom_power: mic.phantom_power,
                        mic_model: copy_opt_text(&mic.model),
                        mic_type: Some(copy_text(&mic.mic_type)),
                        polar_pattern: copy_opt_text(&mic.polar_pattern),
                        notes: None,
                        member_id: Some(copy_text(&singer.id)),
                    }
                },
                None => ChannelEntry {
                    channel_number: number,
                    name,
                    mono_stereo: MonoStereo::Mono,
                    phantom_power: false,
                    mic_model: None,
                    mic_type: None,
                    polar_pattern: None,
                    notes: None,
                    member_id: Some(copy_text(&singer.id)),
                },
            }
        },
    }
}

/// Derives the channel list of the store: one entry for each source, in the
/// order of the sources, numbered from 1.
pub fn channel_list_generate(store: &EquipmentStore) -> (list: Vec<ChannelEntry>)
    requires
        sources_of(store@).len() <= i64::MAX,
    ensures
        list.deep_view() == channel_list(store@),
{
    let sources = channel_sources(store);
    proof {
        lemma_sources_sound(store@);
    }
    let ghost all = sources_of(store@);
    assert(all.len() == sources@.len()) by {
        assert(source_views(sources@).len() == sources@.len());
    }
    let mut list: Vec<ChannelEntry> = Vec::new();
    let mut k: usize = 0;
    while k < sources.len()
        invariant
            k <= sources@.len(),
            all == sources_of(store@),
            all.len() == sources@.len(),
            all.len() <= i64::MAX,
            source_views(sources@) == all,
            forall|j: int| 0 <= j < all.len() ==> in_range(store@, #[trigger] all[j]),
            list@.len() == k,
            forall|j: int| 0 <= j < k ==> (#[trigger] list@[j])@ == entry_of(store@, all[j], j + 1),
        decreases sources@.len() - k,
    {
        let number: i64 = (k + 1) as i64;
        let source = sources[k];
        assert(source@ == all[k as int]);
        let entry = entry_for(store, source, number);
        list.push(entry);
        k = k + 1;
    }
    assert(list.deep_view() =~= channel_list(store@));
    list
}

/// The candidate `r` was made of a record before position `n`, the record that
/// its source names.
pub open spec fn row_from(s: StoreView, c: Category, r: RowView, n: int) -> bool {
    0 <= source_origin(r.source) < n && row(s, c, source_origin(r.source)) == Some(r)
}

/// The candidates of a stage are those that its records make, each once, in
/// store order.
pub proof fn lemma_rows_upto(s: StoreView, c: Category, n: nat)
    requires
        n <= domain_len(s, c),
    ensures
        rows_upto(s, c, n).len() <= n,
        forall|j: int|
            0 <= j < rows_upto(s, c, n).len() ==> row_from(
                s,
                c,
                #[trigger] rows_upto(s, c, n)[j],
                n as int,
            ),
        forall|i: int|
            0 <= i < n && (#[trigger] row(s, c, i)) is Some ==> rows_upto(s, c, n).contains(
                row(s, c, i)->0,
            ),
        forall|j1: int, j2: int|
            0 <= j1 < j2 < rows_upto(s, c, n).len() ==> source_origin(
                (#[trigger] rows_upto(s, c, n)[j1]).source,
            ) < source_origin((#[trigger] rows_upto(s, c, n)[j2]).source),
    decreases n,
{
    if n > 0 {
        let rest = rows_upto(s, c, (n - 1) as nat);
        let all = rows_upto(s, c, n);
        lemma_rows_upto(s, c, (n - 1) as nat);
        lemma_find_id(instrument_ids(s), s.microphones[n - 1].assignment->target_id);
        lemma_find_id(amplifier_ids(s), s.microphones[n - 1].assignment->target_id);
        assert forall|j: int| 0 <= j < all.len() implies row_from(
            s,
            c,
            #[trigger] all[j],
            n as int,
        ) by {
            if j < rest.len() {
                assert(row_from(s, c, rest[j], n - 1));
            }
        }
        assert forall|i: int| 0 <= i < n && (#[trigger] row(s, c, i)) is Some implies all.contains(
            row(s, c, i)->0,
        ) by {
            if i < n - 1 {
                assert(rest.contains(row(s, c, i)->0));
                let j = choose|j: int| 0 <= j < rest.len() && rest[j] == row(s, c, i)->0;
                assert(all[j] == row(s, c, i)->0);
            } else {
                assert(all[all.len() - 1] == row(s, c, i)->0);
            }
        }
        assert forall|j1: int, j2: int| 0 <= j1 < j2 < all.len() implies source_origin(
            (#[trigger] all[j1]).source,
        ) < source_origin((#[trigger] all[j2]).source) by {
            assert(row_from(s, c, rest[j1], n - 1));
            if j2 < rest.len() {
                assert(all[j1] == rest[j1] && all[j2] == rest[j2]);
            }
        }
    }
}

/// `src` is a source of the store: the record it was picked for makes a
/// candidate in the category of `src`, and `src` is that candidate's source.
pub open spec fn is_source(s: StoreView, src: SourceView) -> bool {
    &&& 0 <= source_origin(src) < domain_len(s, source_category(src))
    &&& row(s, source_category(src), source_origin(src)) matches Some(r) && r.source == src
}

/// `src` stands at one position of `list` and no other.
pub open spec fn stands_once(list: Seq<SourceView>, src: SourceView) -> bool {
    exists|k: int|
        0 <= k < list.len() && #[trigger] list[k] == src && forall|j: int|
            0 <= j < list.len() && #[trigger] list[j] == src ==> j == k
}

/// A stage holds just the sources of its category, each once.
pub proof fn lemma_stage(s: StoreView, c: Category)
    ensures
        stage(s, c).len() <= domain_len(s, c),
        forall|k: int|
            0 <= k < stage(s, c).len() ==> is_source(s, #[trigger] stage(s, c)[k])
                && source_category(stage(s, c)[k]) == c,
        forall|src: SourceView|
            is_source(s, src) && source_category(src) == c ==> #[trigger] stage(s, c).contains(
                src,
            ),
        stage(s, c).no_duplicates(),
{
    let rs = rows(s, c);
    let keys = row_keys(rs);
    let p = ordering(keys);
    let st = stage(s, c);
    lemma_rows_upto(s, c, domain_len(s, c));
    lemma_ordering_is_ordering(keys);
    assert forall|k: int| 0 <= k < st.len() implies is_source(s, #[trigger] st[k])
        && source_category(st[k]) == c by {
        assert(p.contains(p[k]));
        assert(row_from(s, c, rs[p[k]], domain_len(s, c) as int));
    }
    assert forall|src: SourceView|
        is_source(s, src) && source_category(src) == c implies #[trigger] st.contains(src) by {
        let i = source_origin(src);
        let r = row(s, c, i)->0;
        assert(rs.contains(r));
        let j = choose|j: int| 0 <= j < rs.len() && rs[j] == r;
        assert(p.contains(j));
        let k = choose|k: int| 0 <= k < p.len() && p[k] == j;
        assert(st[k] == src);
    }
    assert forall|k1: int, k2: int| 0 <= k1 < st.len() && 0 <= k2 < st.len() && k1 != k2 implies st[k1]
        != st[k2] by {
        assert(p.contains(p[k1]));
        assert(p.contains(p[k2]));
        if k1 < k2 {
            assert(crate::ordering::comes_before(keys, p[k1], p[k2]));
        } else {
            assert(crate::ordering::comes_before(keys, p[k2], p[k1]));
        }
        assert(p[k1] != p[k2]);
        if p[k1] < p[k2] {
            assert(source_origin(rs[p[k1]].source) < source_origin(rs[p[k2]].source));
        } else {
            assert(source_origin(rs[p[k2]].source) < source_origin(rs[p[k1]].source));
        }
    }
}

/// The category at place `rank` of the list.
pub open spec fn category_at(rank: int) -> Category {
    if rank <= 1 {
        Category::DrumMics
    } else if rank == 2 {
        Category::DirectInstruments
    } else if rank == 3 {
        Category::AmplifierMics
    } else if rank == 4 {
        Category::DirectAmplifiers
    } else {
        Category::Vocals
    }
}

/// The stages of the first `rank` categories, joined.
pub open spec fn stages_upto(s: StoreView, rank: nat) -> Seq<SourceView>
    decreases rank,
{
    if rank == 0 {
        Seq::empty()
    } else {
        stages_upto(s, (rank - 1) as nat) + stage(s, category_at(rank as int))
    }
}

/// The list of sources is the five stages joined.
pub proof fn lemma_sources_are_stages(s: StoreView)
    ensures
        sources_of(s) == stages_upto(s, 5),
{
    reveal_with_fuel(stages_upto, 6);
    assert(sources_of(s) =~= stages_upto(s, 5));
}

/// What holds of the first `rank` stages joined: they hold just the sources of
/// their categories, each once, in the order of the categories.
pub proof fn lemma_stages_upto(s: StoreView, rank: nat)
    requires
        rank <= 5,
    ensures
        forall|k: int|
            0 <= k < stages_upto(s, rank).len() ==> is_source(
                s,
                #[trigger] stages_upto(s, rank)[k],
            ) && category_rank(source_category(stages_upto(s, rank)[k])) <= rank,
        forall|src: SourceView|
            is_source(s, src) && category_rank(source_category(src)) <= rank
                ==> #[trigger] stages_upto(s, rank).contains(src),
        stages_upto(s, rank).no_duplicates(),
        forall|k1: int, k2: int|
            0 <= k1 < k2 < stages_upto(s, rank).len() ==> category_rank(
                source_category(#[trigger] stages_upto(s, rank)[k1]),
            ) <= category_rank(source_category(#[trigger] stages_upto(s, rank)[k2])),
    decreases rank,
{
    let all = stages_upto(s, rank);
    if rank > 0 {
        let front = stages_upto(s, (rank - 1) as nat);
        let c = category_at(rank as int);
        let back = stage(s, c);
        lemma_stages_upto(s, (rank - 1) as nat);
        lemma_stage(s, c);
        assert(category_rank(c) == rank);
        assert forall|k: int| 0 <= k < all.len() implies is_source(s, #[trigger] all[k])
            && category_rank(source_category(all[k])) <= rank by {
            if k < front.len() {
                assert(all[k] == front[k]);
            } else {
                assert(all[k] == back[k - front.len()]);
            }
        }
        assert forall|src: SourceView|
            is_source(s, src) && category_rank(source_category(src)) <= rank implies #[trigger] all.contains(
            src,
        ) by {
            if category_rank(source_category(src)) <= rank - 1 {
                assert(front.contains(src));
                let k = choose|k: int| 0 <= k < front.len() && front[k] == src;
                assert(all[k] == src);
            } else {
                assert(source_category(src) == c);
                assert(back.contains(src));
                let k = choose|k: int| 0 <= k < back.len() && back[k] == src;
                assert(all[front.len() + k] == src);
            }
        }
        assert forall|k1: int, k2: int|
            0 <= k1 < all.len() && 0 <= k2 < all.len() && k1 != k2 implies all[k1] != all[k2] by {
            if k1 < front.len() {
                assert(all[k1] == front[k1]);
            } else {
                assert(all[k1] == back[k1 - front.len()]);
            }
            if k2 < front.len() {
                assert(all[k2] == front[k2]);
            } else {
                assert(all[k2] == back[k2 - front.len()]);
            }
        }
        assert forall|k1: int, k2: int| 0 <= k1 < k2 < all.len() implies category_rank(
            source_category(#[trigger] all[k1]),
        ) <= category_rank(source_category(#[trigger] all[k2])) by {
            if k1 < front.len() {
                assert(all[k1] == front[k1]);
            } else {
                assert(all[k1] == back[k1 - front.len()]);
            }
            if k2 < front.len() {
                assert(all[k2] == front[k2]);
            } else {
                assert(all[k2] == back[k2 - front.len()]);
            }
        }
    }
}

/// Every entry of the list stands for a source of the store, and the positions
/// that a source names lie within the store.
pub proof fn lemma_sources_sound(s: StoreView)
    ensures
        forall|k: int|
            0 <= k < sources_of(s).len() ==> is_source(s, #[trigger] sources_of(s)[k]) && in_range(
                s,
                sources_of(s)[k],
            ),
{
    lemma_sources_are_stages(s);
    lemma_stages_upto(s, 5);
    assert forall|k: int| 0 <= k < sources_of(s).len() implies in_range(
        s,
        #[trigger] sources_of(s)[k],
    ) by {
        lemma_source_in_range(s, sources_of(s)[k]);
    }
}

/// The positions that a source of the store names lie within the store.
pub proof fn lemma_source_in_range(s: StoreView, src: SourceView)
    requires
        is_source(s, src),
    ensures
        in_range(s, src),
{
    match src {
        SourceView::DrumMic { microphone, instrument } => {
            lemma_find_id(instrument_ids(s), s.microphones[microphone].assignment->target_id);
        },
        SourceView::AmplifierMic { microphone, amplifier } => {
            lemma_find_id(amplifier_ids(s), s.microphones[microphone].assignment->target_id);
        },
        SourceView::Vocal { member, microphone } => {
            lemma_find_id(microphone_ids(s), s.members[member].vocal_mic_id->0);
        },
        _ => {},
    }
}

/// Completeness: every source of the store stands in the list exactly once. So
/// does, then, every microphone placed on a drum instrument or on an amplifier
/// that the store holds, every instrument other than drums and every amplifier
/// without a microphone that goes to the console directly, and every member
/// who names a vocal microphone.
pub proof fn lemma_every_source_once(s: StoreView)
    ensures
        forall|src: SourceView| is_source(s, src) ==> #[trigger] stands_once(sources_of(s), src),
{
    let list = sources_of(s);
    lemma_sources_are_stages(s);
    lemma_stages_upto(s, 5);
    assert forall|src: SourceView| is_source(s, src) implies #[trigger] stands_once(
        list,
        src,
    ) by {
        assert(list.contains(src));
        let k = choose|k: int| 0 <= k < list.len() && list[k] == src;
        assert(list[k] == src);
        assert forall|j: int| 0 <= j < list.len() && #[trigger] list[j] == src implies j == k by {
            if j != k {
                assert(list[j] != list[k]);
            }
        }
    }
}

/// No duplication: no two entries of the list stand for the same source.
pub proof fn lemma_no_source_twice(s: StoreView)
    ensures
        sources_of(s).no_duplicates(),
{
    lemma_sources_are_stages(s);
    lemma_stages_upto(s, 5);
}

/// Category order: an entry never stands before an entry of an earlier category.
pub proof fn lemma_category_order(s: StoreView)
    ensures
        forall|k1: int, k2: int|
            0 <= k1 < k2 < sources_of(s).len() ==> category_rank(
                source_category(#[trigger] sources_of(s)[k1]),
            ) <= category_rank(source_category(#[trigger] sources_of(s)[k2])),
{
    lemma_sources_are_stages(s);
    lemma_stages_upto(s, 5);
}

/// The list has at most one entry for each microphone placed on an instrument,
/// each microphone placed on an amplifier, each instrument, each amplifier and
/// each member.
pub proof fn lemma_source_count(s: StoreView)
    ensures
        sources_of(s).len() <= 2 * s.microphones.len() + s.instruments.len() + s.amplifiers.len()
            + s.members.len(),
{
    lemma_stage(s, Category::DrumMics);
    lemma_stage(s, Category::DirectInstruments);
    lemma_stage(s, Category::AmplifierMics);
    lemma_stage(s, Category::DirectAmplifiers);
    lemma_stage(s, Category::Vocals);
}

} // verus!
