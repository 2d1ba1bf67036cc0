//! The equipment data model: band members, microphones, instruments,
//! amplifiers, front-of-house gear, and the entries of a channel list.
//!
//! Each record type has a view, its mathematical value, in which texts are
//! sequences of characters. Contracts speak of views only.

use vstd::prelude::*;
use vstd::string::StringExecFns;
use crate::text::{copy_opt_text, copy_text, copy_texts, is_same_text};

verus! {

/// How the signal of an instrument or an amplifier reaches the console.
#[derive(Clone, Copy, Debug, PartialEq, Eq, Structural)]
pub enum Routing {
    /// Through a microphone placed on it (for an instrument: through its amplifier).
    Mic,
    /// Through a direct-injection box.
    DirectInjection,
    /// Through a box that feeds several lines directly.
    Multi,
}

/// Whether a signal takes one console input or a pair.
#[derive(Clone, Copy, Debug, PartialEq, Eq, Structural)]
pub enum MonoStereo {
    Mono,
    Stereo,
}

/// The kinds of gear a microphone can be placed on.
#[derive(Clone, Copy, Debug, PartialEq, Eq, Structural)]
pub enum TargetKind {
    Instrument,
    Amplifier,
}

/// Where a microphone is placed: nowhere, or on one instrument or amplifier.
#[derive(Clone, Debug, PartialEq, Eq)]
pub enum Assignment {
    Unassigned,
    AssignedTo { kind: TargetKind, target_id: String },
}

/// Mathematical value of an [`Assignment`].
pub enum AssignmentView {
    Unassigned,
    AssignedTo { kind: TargetKind, target_id: Seq<char> },
}

impl View for Assignment {
    type V = AssignmentView;

    open spec fn view(&self) -> AssignmentView {
        match self {
            Assignment::Unassigned => AssignmentView::Unassigned,
            Assignment::AssignedTo { kind, target_id } => AssignmentView::AssignedTo {
                kind: *kind,
                target_id: target_id@,
            },
        }
    }
}

impl Assignment {
    /// A fresh copy.
    pub fn copy(&self) -> (r: Assignment)
        ensures
            r@ == self@,
    {
        match self {
            Assignment::Unassigned => Assignment::Unassigned,
            Assignment::AssignedTo { kind, target_id } => Assignment::AssignedTo {
                kind: *kind,
                target_id: copy_text(target_id),
            },
        }
    }

    /// Whether the microphone is placed on the gear of kind `kind` named `target_id`.
    pub fn points_at(&self, kind: TargetKind, target_id: &str) -> (r: bool)
        ensures
            r == (self@ == (AssignmentView::AssignedTo { kind, target_id: target_id@ })),
    {
        match self {
            Assignment::Unassigned => false,
            Assignment::AssignedTo { kind: k, target_id: t } => {
                let same_kind = match (k, kind) {
                    (TargetKind::Instrument, TargetKind::Instrument) => true,
                    (TargetKind::Amplifier, TargetKind::Amplifier) => true,
                    _ => false,
                };
                same_kind && is_same_text(t.as_str(), target_id)
            },
        }
    }
}

/// A member of the band.
#[derive(Clone, Debug, PartialEq, Eq)]
pub struct BandMember {
    pub id: String,
    pub name: String,
    pub roles: Vec<String>,
    pub stage_position: Option<String>,
    pub vocal_mic_id: Option<String>,
    pub notes: Option<String>,
    pub sort_order: i64,
}

/// Mathematical value of a [`BandMember`].
pub struct BandMemberView {
    pub id: Seq<char>,
    pub name: Seq<char>,
    pub roles: Seq<Seq<char>>,
    pub stage_position: Option<Seq<char>>,
    pub vocal_mic_id: Option<Seq<char>>,
    pub notes: Option<Seq<char>>,
    pub sort_order: i64,
}

impl View for BandMember {
    type V = BandMemberView;

    open spec fn view(&self) -> BandMemberView {
        BandMemberView {
            id: self.id@,
            name: self.name@,
            roles: self.roles.deep_view(),
            stage_position: self.stage_position.deep_view(),
            vocal_mic_id: self.vocal_mic_id.deep_view(),
            notes: self.notes.deep_view(),
            sort_order: self.sort_order,
        }
    }
}

impl DeepView for BandMember {
    type V = BandMemberView;

    open spec fn deep_view(&self) -> BandMemberView {
        self@
    }
}

impl BandMember {
    /// A fresh copy.
    pub fn copy(&self) -> (r: BandMember)
        ensures
            r@ == self@,
    {
        BandMember {
            id: copy_text(&self.id),
            name: copy_text(&self.name),
            roles: copy_texts(&self.roles),
            stage_position: copy_opt_text(&self.stage_position),
            vocal_mic_id: copy_opt_text(&self.vocal_mic_id),
            notes: copy_opt_text(&self.notes),
            sort_order: self.sort_order,
        }
    }
}

/// A microphone of the band's inventory.
#[derive(Clone, Debug, PartialEq, Eq)]
pub struct Microphone {
    pub id: String,
    pub name: String,
    pub brand: Option<String>,
    pub model: Option<String>,
    pub mic_type: String,
    pub polar_pattern: Option<String>,
    pub phantom_power: bool,
    pub mono_stereo: MonoStereo,
    pub notes: Option<String>,
    pub usage: Option<String>,
    pub assignment: Assignment,
}

/// Mathematical value of a [`Microphone`].
pub struct MicrophoneView {
    pub id: Seq<char>,
    pub name: Seq<char>,
    pub brand: Option<Seq<char>>,
    pub model: Option<Seq<char>>,
    pub mic_type: Seq<char>,
    pub polar_pattern: Option<Seq<char>>,
    pub phantom_power: bool,
    pub mono_stereo: MonoStereo,
    pub notes: Option<Seq<char>>,
    pub usage: Option<Seq<char>>,
    pub assignment: AssignmentView,
}

impl View for Microphone {
    type V = MicrophoneView;

    open spec fn view(&self) -> MicrophoneView {
        MicrophoneView {
            id: self.id@,
            name: self.name@,
            brand: self.brand.deep_view(),
            model: self.model.deep_view(),
            mic_type: self.mic_type@,
            polar_pattern: self.polar_pattern.deep_view(),
            phantom_power: self.phantom_power,
            mono_stereo: self.mono_stereo,
            notes: self.notes.deep_view(),
            usage: self.usage.deep_view(),
            assignment: self.assignment@,
        }
    }
}

impl DeepView for Microphone {
    type V = MicrophoneView;

    open spec fn deep_view(&self) -> MicrophoneView {
        self@
    }
}

impl Microphone {
    /// A fresh copy.
    pub fn copy(&self) -> (r: Microphone)
        ensures
            r@ == self@,
    {
        Microphone {
            id: copy_text(&self.id),
            name: copy_text(&self.name),
            brand: copy_opt_text(&self.brand),
            model: copy_opt_text(&self.model),
            mic_type: copy_text(&self.mic_type),
            polar_pattern: copy_opt_text(&self.polar_pattern),
            phantom_power: self.phantom_power,
            mono_stereo: self.mono_stereo,
            notes: copy_opt_text(&self.notes),
            usage: copy_opt_text(&self.usage),
            assignment: self.assignment.copy(),
        }
    }
}

/// An instrument played on stage.
#[derive(Clone, Debug, PartialEq, Eq)]
pub struct Instrument {
    pub id: String,
    pub member_id: Option<String>,
    pub name: String,
    pub instrument_type: String,
    pub brand: Option<String>,
    pub model: Option<String>,
    pub routing: Routing,
    pub amp_id: Option<String>,
    pub mono_stereo: MonoStereo,
    pub channel_order: i64,
    pub notes: Option<String>,
}

/// Mathematical value of an [`Instrument`].
pub struct InstrumentView {
    pub id: Seq<char>,
    pub member_id: Option<Seq<char>>,
    pub name: Seq<char>,
    pub instrument_type: Seq<char>,
    pub brand: Option<Seq<char>>,
    pub model: Option<Seq<char>>,
    pub routing: Routing,
    pub amp_id: Option<Seq<char>>,
    pub mono_stereo: MonoStereo,
    pub channel_order: i64,
    pub notes: Option<Seq<char>>,
}

impl View for Instrument {
    type V = InstrumentView;

    open spec fn view(&self) -> InstrumentView {
        InstrumentView {
            id: self.id@,
            member_id: self.member_id.deep_view(),
            name: self.name@,
            instrument_type: self.instrument_type@,
            brand: self.brand.deep_view(),
            model: self.model.deep_view(),
            routing: self.routing,
            amp_id: self.amp_id.deep_view(),
            mono_stereo: self.mono_stereo,
            channel_order: self.channel_order,
            notes: self.notes.deep_view(),
        }
    }
}

impl DeepView for Instrument {
    type V = InstrumentView;

    open spec fn deep_view(&self) -> InstrumentView {
        self@
    }
}

impl Instrument {
    /// A fresh copy.
    pub fn copy(&self) -> (r: Instrument)
        ensures
            r@ == self@,
    {
        Instrument {
            id: copy_text(&self.id),
            member_id: copy_opt_text(&self.member_id),
            name: copy_text(&self.name),
            instrument_type: copy_text(&self.instrument_type),
            brand: copy_opt_text(&self.brand),
            model: copy_opt_text(&self.model),
            routing: self.routing,
            amp_id: copy_opt_text(&self.amp_id),
            mono_stereo: self.mono_stereo,
            channel_order: self.channel_order,
            notes: copy_opt_text(&self.notes),
        }
    }
}

/// An amplifier on stage.
#[derive(Clone, Debug, PartialEq, Eq)]
pub struct Amplifier {
    pub id: String,
    pub member_id: Option<String>,
    pub name: String,
    pub amp_type: String,
    pub brand: Option<String>,
    pub model: Option<String>,
    pub wattage: Option<i64>,
    pub routing: Routing,
    pub mono_stereo: MonoStereo,
    pub stage_position: Option<String>,
    pub notes: Option<String>,
    pub cabinet_brand: Option<String>,
    pub speaker_brand: Option<String>,
    pub speaker_model: Option<String>,
    pub speaker_config: Option<String>,
}

/// Mathematical value of an [`Amplifier`].
pub struct AmplifierView {
    pub id: Seq<char>,
    pub member_id: Option<Seq<char>>,
    pub name: Seq<char>,
    pub amp_type: Seq<char>,
    pub brand: Option<Seq<char>>,
    pub model: Option<Seq<char>>,
    pub wattage: Option<i64>,
    pub routing: Routing,
    pub mono_stereo: MonoStereo,
    pub stage_position: Option<Seq<char>>,
    pub notes: Option<Seq<char>>,
    pub cabinet_brand: Option<Seq<char>>,
    pub speaker_brand: Option<Seq<char>>,
    pub speaker_model: Option<Seq<char>>,
    pub speaker_config: Option<Seq<char>>,
}

impl View for Amplifier {
    type V = AmplifierView;

    open spec fn view(&self) -> AmplifierView {
        AmplifierView {
            id: self.id@,
            member_id: self.member_id.deep_view(),
            name: self.name@,
            amp_type: self.amp_type@,
            brand: self.brand.deep_view(),
            model: self.model.deep_view(),
            wattage: self.wattage,
            routing: self.routing,
            mono_stereo: self.mono_stereo,
            stage_position: self.stage_position.deep_view(),
            notes: self.notes.deep_view(),
            cabinet_brand: self.cabinet_brand.deep_view(),
            speaker_brand: self.speaker_brand.deep_view(),
            speaker_model: self.speaker_model.deep_view(),
            speaker_config: self.speaker_config.deep_view(),
        }
    }
}

impl DeepView for Amplifier {
    type V = AmplifierView;

    open spec fn deep_view(&self) -> AmplifierView {
        self@
    }
}

impl Amplifier {
    /// A fresh copy.
    pub fn copy(&self) -> (r: Amplifier)
        ensures
            r@ == self@,
    {
        Amplifier {
            id: copy_text(&self.id),
            member_id: copy_opt_text(&self.member_id),
            name: copy_text(&self.name),
            amp_type: copy_text(&self.amp_type),
            brand: copy_opt_text(&self.brand),
            model: copy_opt_text(&self.model),
            wattage: self.wattage,
            routing: self.routing,
            mono_stereo: self.mono_stereo,
            stage_position: copy_opt_text(&self.stage_position),
            notes: copy_opt_text(&self.notes),
            cabinet_brand: copy_opt_text(&self.cabinet_brand),
            speaker_brand: copy_opt_text(&self.speaker_brand),
            speaker_model: copy_opt_text(&self.speaker_model),
            speaker_config: copy_opt_text(&self.speaker_config),
        }
    }
}

/// A piece of front-of-house gear. The channel list does not read it.
#[derive(Clone, Debug, PartialEq, Eq)]
pub struct PaEquipment {
    pub id: String,
    pub category: String,
    pub name: String,
    pub brand: Option<String>,
    pub model: Option<String>,
    pub quantity: i64,
    pub channels: Option<i64>,
    pub aux_sends: Option<i64>,
    pub wattage: Option<i64>,
    pub notes: Option<String>,
    pub monitor_type: Option<String>,
    pub iem_wireless: bool,
}

/// Mathematical value of a [`PaEquipment`].
pub struct PaEquipmentView {
    pub id: Seq<char>,
    pub category: Seq<char>,
    pub name: Seq<char>,
    pub brand: Option<Seq<char>>,
    pub model: Option<Seq<char>>,
    pub quantity: i64,
    pub channels: Option<i64>,
    pub aux_sends: Option<i64>,
    pub wattage: Option<i64>,
    pub notes: Option<Seq<char>>,
    pub monitor_type: Option<Seq<char>>,
    pub iem_wireless: bool,
}

impl View for PaEquipment {
    type V = PaEquipmentView;

    open spec fn view(&self) -> PaEquipmentView {
        PaEquipmentView {
            id: self.id@,
            category: self.category@,
            name: self.name@,
            brand: self.brand.deep_view(),
            model: self.model.deep_view(),
            quantity: self.quantity,
            channels: self.channels,
            aux_sends: self.aux_sends,
            wattage: self.wattage,
            notes: self.notes.deep_view(),
            monitor_type: self.monitor_type.deep_view(),
            iem_wireless: self.iem_wireless,
        }
    }
}

impl DeepView for PaEquipment {
    type V = PaEquipmentView;

    open spec fn deep_view(&self) -> PaEquipmentView {
        self@
    }
}

impl PaEquipment {
    /// A fresh copy.
    pub fn copy(&self) -> (r: PaEquipment)
        ensures
            r@ == self@,
    {
        PaEquipment {
            id: copy_text(&self.id),
            category: copy_text(&self.category),
            name: copy_text(&self.name),
            brand: copy_opt_text(&self.brand),
            model: copy_opt_text(&self.model),
            quantity: self.quantity,
            channels: self.channels,
            aux_sends: self.aux_sends,
            wattage: self.wattage,
            notes: copy_opt_text(&self.notes),
            monitor_type: copy_opt_text(&self.monitor_type),
            iem_wireless: self.iem_wireless,
        }
    }
}

/// One input of the mixing console, as the channel list names it.
#[derive(Clone, Debug, PartialEq, Eq)]
pub struct ChannelEntry {
    pub channel_number: i64,
    pub name: String,
    pub mono_stereo: MonoStereo,
    pub phantom_power: bool,
    pub mic_model: Option<String>,
    pub mic_type: Option<String>,
    pub polar_pattern: Option<String>,
    pub notes: Option<String>,
    pub member_id: Option<String>,
}

/// Mathematical value of a [`ChannelEntry`].
pub struct ChannelEntryView {
    pub channel_number: int,
    pub name: Seq<char>,
    pub mono_stereo: MonoStereo,
    pub phantom_power: bool,
    pub mic_model: Option<Seq<char>>,
    pub mic_type: Option<Seq<char>>,
    pub polar_pattern: Option<Seq<char>>,
    pub notes: Option<Seq<char>>,
    pub member_id: Option<Seq<char>>,
}

impl View for ChannelEntry {
    type V = ChannelEntryView;

    open spec fn view(&self) -> ChannelEntryView {
        ChannelEntryView {
            channel_number: self.channel_number as int,
            name: self.name@,
            mono_stereo: self.mono_stereo,
            phantom_power: self.phantom_power,
            mic_model: self.mic_model.deep_view(),
            mic_type: self.mic_type.deep_view(),
            polar_pattern: self.polar_pattern.deep_view(),
            notes: self.notes.deep_view(),
            member_id: self.member_id.deep_view(),
        }
    }
}

impl DeepView for ChannelEntry {
    type V = ChannelEntryView;

    open spec fn deep_view(&self) -> ChannelEntryView {
        self@
    }
}

/// What is given to add a member. A missing sort order means 0.
#[derive(Clone, Debug, PartialEq, Eq)]
pub struct MemberPayload {
    pub name: String,
    pub roles: Vec<String>,
    pub stage_position: Option<String>,
    pub vocal_mic_id: Option<String>,
    pub notes: Option<String>,
    pub sort_order: Option<i64>,
}

/// What is given to add a microphone. A missing phantom-power flag means none,
/// a missing mono/stereo flag means mono.
#[derive(Clone, Debug, PartialEq, Eq)]
pub struct MicrophonePayload {
    pub name: String,
    pub brand: Option<String>,
    pub model: Option<String>,
    pub mic_type: String,
    pub polar_pattern: Option<String>,
    pub phantom_power: Option<bool>,
    pub mono_stereo: Option<MonoStereo>,
    pub notes: Option<String>,
    pub usage: Option<String>,
    pub assignment: Assignment,
}

/// What is given to add an instrument. A missing routing means direct
/// injection, a missing mono/stereo flag mono, a missing channel order 0.
#[derive(Clone, Debug, PartialEq, Eq)]
pub struct InstrumentPayload {
    pub member_id: Option<String>,
    pub name: String,
    pub instrument_type: String,
    pub brand: Option<String>,
    pub model: Option<String>,
    pub routing: Option<Routing>,
    pub amp_id: Option<String>,
    pub mono_stereo: Option<MonoStereo>,
    pub channel_order: Option<i64>,
    pub notes: Option<String>,
}

/// What is given to add an amplifier. A missing routing means direct injection,
/// a missing mono/stereo flag mono.
#[derive(Clone, Debug, PartialEq, Eq)]
pub struct AmplifierPayload {
    pub member_id: Option<String>,
    pub name: String,
    pub amp_type: String,
    pub brand: Option<String>,
    pub model: Option<String>,
    pub wattage: Option<i64>,
    pub routing: Option<Routing>,
    pub mono_stereo: Option<MonoStereo>,
    pub stage_position: Option<String>,
    pub notes: Option<String>,
    pub cabinet_brand: Option<String>,
    pub speaker_brand: Option<String>,
    pub speaker_model: Option<String>,
    pub speaker_config: Option<String>,
}

/// What is given to add a piece of front-of-house gear. A missing quantity
/// means 1, a missing wireless flag means wired.
#[derive(Clone, Debug, PartialEq, Eq)]
pub struct PaPayload {
    pub category: String,
    pub name: String,
    pub brand: Option<String>,
    pub model: Option<String>,
    pub quantity: Option<i64>,
    pub channels: Option<i64>,
    pub aux_sends: Option<i64>,
    pub wattage: Option<i64>,
    pub notes: Option<String>,
    pub monitor_type: Option<String>,
    pub iem_wireless: Option<bool>,
}

/// The member that a payload describes, under the id `id`.
pub open spec fn member_of(id: Seq<char>, p: MemberPayload) -> BandMemberView {
    BandMemberView {
        id,
        name: p.name@,
        roles: p.roles.deep_view(),
        stage_position: p.stage_position.deep_view(),
        vocal_mic_id: p.vocal_mic_id.deep_view(),
        notes: p.notes.deep_view(),
        sort_order: match p.sort_order {
            Some(n) => n,
            None => 0,
        },
    }
}

/// The microphone that a payload describes, under the id `id`.
pub open spec fn microphone_of(id: Seq<char>, p: MicrophonePayload) -> MicrophoneView {
    MicrophoneView {
        id,
        name: p.name@,
        brand: p.brand.deep_view(),
        model: p.model.deep_view(),
        mic_type: p.mic_type@,
        polar_pattern: p.polar_pattern.deep_view(),
        phantom_power: match p.phantom_power {
            Some(b) => b,
            None => false,
        },
        mono_stereo: match p.mono_stereo {
            Some(f) => f,
            None => MonoStereo::Mono,
        },
        notes: p.notes.deep_view(),
        usage: p.usage.deep_view(),
        assignment: p.assignment@,
    }
}

/// The instrument that a payload describes, under the id `id`.
pub open spec fn instrument_of(id: Seq<char>, p: InstrumentPayload) -> InstrumentView {
    InstrumentView {
        id,
        member_id: p.member_id.deep_view(),
        name: p.name@,
        instrument_type: p.instrument_type@,
        brand: p.brand.deep_view(),
        model: p.model.deep_view(),
        routing: match p.routing {
            Some(r) => r,
            None => Routing::DirectInjection,
        },
        amp_id: p.amp_id.deep_view(),
        mono_stereo: match p.mono_stereo {
            Some(f) => f,
            None => MonoStereo::Mono,
        },
        channel_order: match p.channel_order {
            Some(n) => n,
            None => 0,
        },
        notes: p.notes.deep_view(),
    }
}

/// The amplifier that a payload describes, under the id `id`.
pub open spec fn amplifier_of(id: Seq<char>, p: AmplifierPayload) -> AmplifierView {
    AmplifierView {
        id,
        member_id: p.member_id.deep_view(),
        name: p.name@,
        amp_type: p.amp_type@,
        brand: p.brand.deep_view(),
        model: p.model.deep_view(),
        wattage: p.wattage,
        routing: match p.routing {
            Some(r) => r,
            None => Routing::DirectInjection,
        },
        mono_stereo: match p.mono_stereo {
            Some(f) => f,
            None => MonoStereo::Mono,
        },
        stage_position: p.stage_position.deep_view(),
        notes: p.notes.deep_view(),
        cabinet_brand: p.cabinet_brand.deep_view(),
        speaker_brand: p.speaker_brand.deep_view(),
        speaker_model: p.speaker_model.deep_view(),
        speaker_config: p.speaker_config.deep_view(),
    }
}

/// The piece of front-of-house gear that a payload describes, under the id `id`.
pub open spec fn pa_of(id: Seq<char>, p: PaPayload) -> PaEquipmentView {
    PaEquipmentView {
        id,
        category: p.category@,
        name: p.name@,
        brand: p.brand.deep_view(),
        model: p.model.deep_view(),
        quantity: match p.quantity {
            Some(n) => n,
            None => 1,
        },
        channels: p.channels,
        aux_sends: p.aux_sends,
        wattage: p.wattage,
        notes: p.notes.deep_view(),
        monitor_type: p.monitor_type.deep_view(),
        iem_wireless: match p.iem_wireless {
            Some(b) => b,
            None => false,
        },
    }
}

impl BandMember {
    /// The member that a payload describes, under the id `id`.
    pub fn from_payload(id: String, p: MemberPayload) -> (r: BandMember)
        ensures
            r@ == member_of(id@, p),
    {
        BandMember {
            id,
            name: p.name,
            roles: p.roles,
            stage_position: p.stage_position,
            vocal_mic_id: p.vocal_mic_id,
            notes: p.notes,
            sort_order: match p.sort_order {
                Some(n) => n,
                None => 0,
            },
        }
    }
}

impl Microphone {
    /// The microphone that a payload describes, under the id `id`.
    pub fn from_payload(id: String, p: MicrophonePayload) -> (r: Microphone)
        ensures
            r@ == microphone_of(id@, p),
    {
        Microphone {
            id,
            name: p.name,
            brand: p.brand,
            model: p.model,
            mic_type: p.mic_type,
            polar_pattern: p.polar_pattern,
            phantom_power: match p.phantom_power {
                Some(b) => b,
                None => false,
            },
            mono_stereo: match p.mono_stereo {
                Some(f) => f,
                None => MonoStereo::Mono,
            },
            notes: p.notes,
            usage: p.usage,
            assignment: p.assignment,
        }
    }
}

impl Instrument {
    /// The instrument that a payload describes, under the id `id`.
    pub fn from_payload(id: String, p: InstrumentPayload) -> (r: Instrument)
        ensures
            r@ == instrument_of(id@, p),
    {
        Instrument {
            id,
            member_id: p.member_id,
            name: p.name,
            instrument_type: p.instrument_type,
            brand: p.brand,
            model: p.model,
            routing: match p.routing {
                Some(r) => r,
                None => Routing::DirectInjection,
            },
            amp_id: p.amp_id,
            mono_stereo: match p.mono_stereo {
                Some(f) => f,
                None => MonoStereo::Mono,
            },
            channel_order: match p.channel_order {
                Some(n) => n,
                None => 0,
            },
            notes: p.notes,
        }
    }
}

impl Amplifier {
    /// The amplifier that a payload describes, under the id `id`.
    pub fn from_payload(id: String, p: AmplifierPayload) -> (r: Amplifier)
        ensures
            r@ == amplifier_of(id@, p),
    {
        Amplifier {
            id,
            member_id: p.member_id,
            name: p.name,
            amp_type: p.amp_type,
            brand: p.brand,
            model: p.model,
            wattage: p.wattage,
            routing: match p.routing {
                Some(r) => r,
                None => Routing::DirectInjection,
            },
            mono_stereo: match p.mono_stereo {
                Some(f) => f,
                None => MonoStereo::Mono,
            },
            stage_position: p.stage_position,
            notes: p.notes,
            cabinet_brand: p.cabinet_brand,
            speaker_brand: p.speaker_brand,
            speaker_model: p.speaker_model,
            speaker_config: p.speaker_config,
        }
    }
}

impl PaEquipment {
    /// The piece of front-of-house gear that a payload describes, under the id `id`.
    pub fn from_payload(id: String, p: PaPayload) -> (r: PaEquipment)
        ensures
            r@ == pa_of(id@, p),
    {
        PaEquipment {
            id,
            category: p.category,
            name: p.name,
            brand: p.brand,
            model: p.model,
            quantity: match p.quantity {
                Some(n) => n,
                None => 1,
            },
            channels: p.channels,
            aux_sends: p.aux_sends,
            wattage: p.wattage,
            notes: p.notes,
            monitor_type: p.monitor_type,
            iem_wireless: match p.iem_wireless {
                Some(b) => b,
                None => false,
            },
        }
    }
}

/// The stored code of a routing: `"di"`, `"mesa"`, and for the microphone
/// route `"amp"` on an instrument and `"mic"` on an amplifier.
pub open spec fn routing_code(routing: Routing, kind: TargetKind) -> Seq<char> {
    match routing {
        Routing::DirectInjection => "di"@,
        Routing::Multi => "mesa"@,
        Routing::Mic => match kind {
            TargetKind::Instrument => "amp"@,
            TargetKind::Amplifier => "mic"@,
        },
    }
}

/// The routing a stored code stands for. Every code but `"di"` and `"mesa"`
/// means the microphone route.
pub open spec fn routing_of_code(code: Seq<char>) -> Routing {
    if code == "di"@ {
        Routing::DirectInjection
    } else if code == "mesa"@ {
        Routing::Multi
    } else {
        Routing::Mic
    }
}

impl Routing {
    /// Reads a stored routing code.
    pub fn from_code(code: &str) -> (r: Routing)
        ensures
            r == routing_of_code(code@),
    {
        if is_same_text(code, "di") {
            Routing::DirectInjection
        } else if is_same_text(code, "mesa") {
            Routing::Multi
        } else {
            Routing::Mic
        }
    }

    /// The code under which this routing is stored for gear of kind `kind`.
    pub fn code(&self, kind: TargetKind) -> (r: String)
        ensures
            r@ == routing_code(*self, kind),
    {
        match self {
            Routing::DirectInjection => String::from_str("di"),
            Routing::Multi => String::from_str("mesa"),
            Routing::Mic => match kind {
                TargetKind::Instrument => String::from_str("amp"),
                TargetKind::Amplifier => String::from_str("mic"),
            },
        }
    }

    /// Whether the signal goes to the console without a microphone.
    pub fn is_direct(&self) -> (r: bool)
        ensures
            r == (*self == Routing::DirectInjection || *self == Routing::Multi),
    {
        match self {
            Routing::Mic => false,
            _ => true,
        }
    }
}

/// The stored code of a mono/stereo flag.
pub open spec fn mono_stereo_code(flag: MonoStereo) -> Seq<char> {
    match flag {
        MonoStereo::Mono => "mono"@,
        MonoStereo::Stereo => "stereo"@,
    }
}

/// The flag a stored code stands for: stereo for `"stereo"`, mono for every other.
pub open spec fn mono_stereo_of_code(code: Seq<char>) -> MonoStereo {
    if code == "stereo"@ {
        MonoStereo::Stereo
    } else {
        MonoStereo::Mono
    }
}

impl MonoStereo {
    /// Reads a stored mono/stereo code.
    pub fn from_code(code: &str) -> (r: MonoStereo)
        ensures
            r == mono_stereo_of_code(code@),
    {
        if is_same_text(code, "stereo") {
            MonoStereo::Stereo
        } else {
            MonoStereo::Mono
        }
    }

    /// The code under which the flag is stored.
    pub fn code(&self) -> (r: String)
        ensures
            r@ == mono_stereo_code(*self),
    {
        match self {
            MonoStereo::Mono => String::from_str("mono"),
            MonoStereo::Stereo => String::from_str("stereo"),
        }
    }
}

/// The assignment that a stored pair of columns stands for: a kind code
/// `"instrument"` or `"amplifier"` with a target makes an assignment, every
/// other pair none.
pub open spec fn assignment_of_columns(
    kind: Option<Seq<char>>,
    target: Option<Seq<char>>,
) -> AssignmentView {
    match (kind, target) {
        (Some(k), Some(t)) => if k == "instrument"@ {
            AssignmentView::AssignedTo { kind: TargetKind::Instrument, target_id: t }
        } else if k == "amplifier"@ {
            AssignmentView::AssignedTo { kind: TargetKind::Amplifier, target_id: t }
        } else {
            AssignmentView::Unassigned
        },
        _ => AssignmentView::Unassigned,
    }
}

/// The stored kind code of an assignment.
pub open spec fn assignment_kind_code(a: AssignmentView) -> Option<Seq<char>> {
    match a {
        AssignmentView::Unassigned => None,
        AssignmentView::AssignedTo { kind, target_id } => match kind {
            TargetKind::Instrument => Some("instrument"@),
            TargetKind::Amplifier => Some("amplifier"@),
        },
    }
}

/// The stored target of an assignment.
pub open spec fn assignment_target(a: AssignmentView) -> Option<Seq<char>> {
    match a {
        AssignmentView::Unassigned => None,
        AssignmentView::AssignedTo { kind, target_id } => Some(target_id),
    }
}

impl Assignment {
    /// Reads the stored pair of columns of an assignment.
    pub fn from_columns(kind: &Option<String>, target: &Option<String>) -> (r: Assignment)
        ensures
            r@ == assignment_of_columns(kind.deep_view(), target.deep_view()),
    {
        match (kind, target) {
            (Some(k), Some(t)) => {
                if is_same_text(k.as_str(), "instrument") {
                    Assignment::AssignedTo {
                        kind: TargetKind::Instrument,
                        target_id: copy_text(t),
                    }
                } else if is_same_text(k.as_str(), "amplifier") {
                    Assignment::AssignedTo { kind: TargetKind::Amplifier, target_id: copy_text(t) }
                } else {
                    Assignment::Unassigned
                }
            },
            _ => Assignment::Unassigned,
        }
    }

    /// The kind code under which the assignment is stored.
    pub fn kind_code(&self) -> (r: Option<String>)
        ensures
            r.deep_view() == assignment_kind_code(self@),
    {
        match self {
            Assignment::Unassigned => None,
            Assignment::AssignedTo { kind, target_id } => match kind {
                TargetKind::Instrument => Some(String::from_str("instrument")),
                TargetKind::Amplifier => Some(String::from_str("amplifier")),
            },
        }
    }

    /// The target under which the assignment is stored.
    pub fn target(&self) -> (r: Option<String>)
        ensures
            r.deep_view() == assignment_target(self@),
    {
        match self {
            Assignment::Unassigned => None,
            Assignment::AssignedTo { kind, target_id } => Some(copy_text(target_id)),
        }
    }
}

} // verus!
