use blackout_orm::assignments::{
    amplifier_mics_set, amplifiers_update_instrument_link, instrument_mics_set,
};
use blackout_orm::channels::{channel_list_generate, channel_sources, Source};
use blackout_orm::model::{
    Amplifier, Assignment, BandMember, ChannelEntry, Instrument, Microphone, MonoStereo, Routing,
    TargetKind,
};
use blackout_orm::store::{EquipmentStore, StoreError};

fn text(s: &str) -> String {
    s.to_string()
}

fn microphone(id: &str, name: &str, model: &str) -> Microphone {
    Microphone {
        id: text(id),
        name: text(name),
        brand: Some(text("Shure")),
        model: Some(text(model)),
        mic_type: text("dynamic"),
        polar_pattern: Some(text("cardioid")),
        phantom_power: false,
        mono_stereo: MonoStereo::Mono,
        notes: None,
        usage: None,
        assignment: Assignment::Unassigned,
    }
}

fn instrument(id: &str, name: &str, kind: &str, routing: Routing, order: i64) -> Instrument {
    Instrument {
        id: text(id),
        member_id: None,
        name: text(name),
        instrument_type: text(kind),
        brand: None,
        model: None,
        routing,
        amp_id: None,
        mono_stereo: MonoStereo::Mono,
        channel_order: order,
        notes: None,
    }
}

fn amplifier(id: &str, name: &str, routing: Routing) -> Amplifier {
    Amplifier {
        id: text(id),
        member_id: None,
        name: text(name),
        amp_type: text("combo"),
        brand: None,
        model: None,
        wattage: Some(50),
        routing,
        mono_stereo: MonoStereo::Mono,
        stage_position: None,
        notes: None,
        cabinet_brand: None,
        speaker_brand: None,
        speaker_model: None,
        speaker_config: None,
    }
}

fn member(id: &str, name: &str, roles: &[&str], vocal_mic: Option<&str>, order: i64) -> BandMember {
    BandMember {
        id: text(id),
        name: text(name),
        roles: roles.iter().map(|r| text(r)).collect(),
        stage_position: None,
        vocal_mic_id: vocal_mic.map(text),
        notes: None,
        sort_order: order,
    }
}

fn placed(kind: TargetKind, id: &str) -> Assignment {
    Assignment::AssignedTo { kind, target_id: text(id) }
}

fn names(list: &[ChannelEntry]) -> Vec<String> {
    list.iter().map(|e| e.name.clone()).collect()
}

fn numbers(list: &[ChannelEntry]) -> Vec<i64> {
    list.iter().map(|e| e.channel_number).collect()
}

#[test]
fn empty_store_gives_empty_list() {
    let store = EquipmentStore::new();
    assert_eq!(channel_list_generate(&store), Vec::<ChannelEntry>::new());
}

#[test]
fn drum_mic_direct_bass_and_vocal_make_three_channels() {
    let mut store = EquipmentStore::new();
    store.instruments.push(instrument("i-kick", "Kick", "drums", Routing::Mic, 0));
    store.instruments.push(instrument("i-bass", "Bass", "bass", Routing::DirectInjection, 0));
    let mut kick_mic = microphone("m-kick", "Kick In", "SM57");
    kick_mic.assignment = placed(TargetKind::Instrument, "i-kick");
    store.microphones.push(kick_mic);
    let mut vocal_mic = microphone("m-vox", "Lead Vox", "SM58");
    vocal_mic.phantom_power = true;
    store.microphones.push(vocal_mic);
    store.members.push(member("b-ana", "Ana", &["vocalist"], Some("m-vox"), 0));

    let list = channel_list_generate(&store);
    assert_eq!(list.len(), 3);
    assert_eq!(numbers(&list), vec![1, 2, 3]);
    assert_eq!(
        list[0],
        ChannelEntry {
            channel_number: 1,
            name: text("Kick In \u{2014} Kick"),
            mono_stereo: MonoStereo::Mono,
            phantom_power: false,
            mic_model: Some(text("SM57")),
            mic_type: Some(text("dynamic")),
            polar_pattern: Some(text("cardioid")),
            notes: None,
            member_id: None,
        }
    );
    assert_eq!(
        list[1],
        ChannelEntry {
            channel_number: 2,
            name: text("Bass"),
            mono_stereo: MonoStereo::Mono,
            phantom_power: false,
            mic_model: Some(text("DI box / high-impedance input")),
            mic_type: None,
            polar_pattern: None,
            notes: None,
            member_id: None,
        }
    );
    assert_eq!(
        list[2],
        ChannelEntry {
            channel_number: 3,
            name: text("Voz - Ana"),
            mono_stereo: MonoStereo::Mono,
            phantom_power: true,
            mic_model: Some(text("SM58")),
            mic_type: Some(text("dynamic")),
            polar_pattern: Some(text("cardioid")),
            notes: None,
            member_id: Some(text("b-ana")),
        }
    );
    assert_eq!(
        channel_sources(&store),
        vec![
            Source::DrumMic { microphone: 0, instrument: 0 },
            Source::DirectInstrument { instrument: 1 },
            Source::Vocal { member: 0, microphone: Some(1) },
        ]
    );
}

#[test]
fn direct_amplifier_entry_gives_way_to_its_microphone() {
    let mut store = EquipmentStore::new();
    store.amplifiers.push(amplifier("a-1", "Twin", Routing::DirectInjection));
    store.microphones.push(microphone("m-1", "E906", "e906"));

    let before = channel_list_generate(&store);
    assert_eq!(names(&before), vec![text("Amp \u{2014} Twin")]);
    assert_eq!(before[0].mic_model, Some(text("DI box / high-impedance input")));
    assert_eq!(before[0].channel_number, 1);

    assert_eq!(amplifier_mics_set(&mut store, text("a-1"), vec![text("m-1")]), Ok(()));
    let after = channel_list_generate(&store);
    assert_eq!(names(&after), vec![text("E906 \u{2014} Twin")]);
    assert_eq!(after[0].mic_model, Some(text("e906")));
    assert_eq!(after[0].channel_number, 1);
    assert_eq!(channel_sources(&store), vec![Source::AmplifierMic { microphone: 0, amplifier: 0 }]);
}

#[test]
fn second_link_to_an_amplifier_unlinks_the_first_instrument() {
    let mut store = EquipmentStore::new();
    store.amplifiers.push(amplifier("a-y", "Stack", Routing::Mic));
    store.instruments.push(instrument("i-x", "Strat", "guitar", Routing::DirectInjection, 0));
    store.instruments.push(instrument("i-z", "Tele", "guitar", Routing::DirectInjection, 1));

    assert_eq!(
        amplifiers_update_instrument_link(&mut store, text("a-y"), Some(text("i-x"))),
        Ok(())
    );
    assert_eq!(store.instruments[0].amp_id, Some(text("a-y")));
    assert_eq!(store.instruments[0].routing, Routing::Mic);
    assert_eq!(store.instruments[1].amp_id, None);

    assert_eq!(
        amplifiers_update_instrument_link(&mut store, text("a-y"), Some(text("i-z"))),
        Ok(())
    );
    assert_eq!(store.instruments[0].amp_id, None);
    assert_eq!(store.instruments[0].routing, Routing::DirectInjection);
    assert_eq!(store.instruments[1].amp_id, Some(text("a-y")));
    assert_eq!(store.instruments[1].routing, Routing::Mic);
}

#[test]
fn unlinking_an_amplifier_routes_its_instrument_directly() {
    let mut store = EquipmentStore::new();
    store.amplifiers.push(amplifier("a-y", "Stack", Routing::Mic));
    store.instruments.push(instrument("i-x", "Strat", "guitar", Routing::DirectInjection, 0));
    assert_eq!(
        amplifiers_update_instrument_link(&mut store, text("a-y"), Some(text("i-x"))),
        Ok(())
    );
    assert_eq!(names(&channel_list_generate(&store)), Vec::<String>::new());
    assert_eq!(amplifiers_update_instrument_link(&mut store, text("a-y"), None), Ok(()));
    assert_eq!(store.instruments[0].amp_id, None);
    assert_eq!(store.instruments[0].routing, Routing::DirectInjection);
    assert_eq!(names(&channel_list_generate(&store)), vec![text("Strat")]);
}

#[test]
fn link_is_refused_for_unknown_amplifier_or_instrument() {
    let mut store = EquipmentStore::new();
    store.amplifiers.push(amplifier("a-y", "Stack", Routing::Mic));
    store.instruments.push(instrument("i-x", "Strat", "guitar", Routing::DirectInjection, 0));
    let untouched = store.clone();
    assert_eq!(
        amplifiers_update_instrument_link(&mut store, text("a-none"), Some(text("i-x"))),
        Err(StoreError::InvalidReference)
    );
    assert_eq!(
        amplifiers_update_instrument_link(&mut store, text("a-y"), Some(text("i-none"))),
        Err(StoreError::NotFound)
    );
    assert_eq!(
        amplifiers_update_instrument_link(&mut store, text("a-none"), Some(text("i-none"))),
        Err(StoreError::InvalidReference)
    );
    assert_eq!(store, untouched);
}

#[test]
fn placing_a_microphone_takes_it_off_its_former_target() {
    let mut store = EquipmentStore::new();
    store.instruments.push(instrument("i-snare", "Snare", "drums", Routing::Mic, 1));
    store.amplifiers.push(amplifier("a-1", "Twin", Routing::Mic));
    store.microphones.push(microphone("m-1", "SM57", "SM57"));

    assert_eq!(instrument_mics_set(&mut store, text("i-snare"), vec![text("m-1")]), Ok(()));
    assert_eq!(names(&channel_list_generate(&store)), vec![text("SM57 \u{2014} Snare")]);

    assert_eq!(amplifier_mics_set(&mut store, text("a-1"), vec![text("m-1")]), Ok(()));
    assert_eq!(store.microphones[0].assignment, placed(TargetKind::Amplifier, "a-1"));
    assert_eq!(names(&channel_list_generate(&store)), vec![text("SM57 \u{2014} Twin")]);
}

#[test]
fn empty_microphone_list_clears_a_target() {
    let mut store = EquipmentStore::new();
    store.instruments.push(instrument("i-kit", "Kit", "drums", Routing::Mic, 0));
    store.instruments.push(instrument("i-perc", "Congas", "drums", Routing::Mic, 1));
    store.microphones.push(microphone("m-1", "Kick", "D6"));
    store.microphones.push(microphone("m-2", "Snare", "SM57"));
    store.microphones.push(microphone("m-3", "Conga", "MD421"));
    assert_eq!(
        instrument_mics_set(&mut store, text("i-kit"), vec![text("m-1"), text("m-2")]),
        Ok(())
    );
    assert_eq!(instrument_mics_set(&mut store, text("i-perc"), vec![text("m-3")]), Ok(()));
    assert_eq!(channel_list_generate(&store).len(), 3);

    assert_eq!(instrument_mics_set(&mut store, text("i-kit"), vec![]), Ok(()));
    assert_eq!(store.microphones[0].assignment, Assignment::Unassigned);
    assert_eq!(store.microphones[1].assignment, Assignment::Unassigned);
    assert_eq!(store.microphones[2].assignment, placed(TargetKind::Instrument, "i-perc"));
    assert_eq!(names(&channel_list_generate(&store)), vec![text("Conga \u{2014} Congas")]);

    let cleared = store.clone();
    assert_eq!(instrument_mics_set(&mut store, text("i-kit"), vec![]), Ok(()));
    assert_eq!(store, cleared);
}

#[test]
fn microphone_assignment_is_refused_for_unknown_ids() {
    let mut store = EquipmentStore::new();
    store.instruments.push(instrument("i-kit", "Kit", "drums", Routing::Mic, 0));
    store.microphones.push(microphone("m-1", "Kick", "D6"));
    let untouched = store.clone();
    assert_eq!(
        instrument_mics_set(&mut store, text("i-none"), vec![text("m-1")]),
        Err(StoreError::InvalidReference)
    );
    assert_eq!(
        amplifier_mics_set(&mut store, text("i-kit"), vec![text("m-1")]),
        Err(StoreError::InvalidReference)
    );
    assert_eq!(
        instrument_mics_set(&mut store, text("i-kit"), vec![text("m-1"), text("m-none")]),
        Err(StoreError::NotFound)
    );
    assert_eq!(store, untouched);
}

fn full_stage() -> EquipmentStore {
    let mut store = EquipmentStore::new();
    store.members.push(member("b-1", "Zoe", &["guitarist"], Some("m-v2"), 0));
    store.members.push(member("b-2", "Ana", &["vocalist", "keys"], Some("m-v1"), 5));
    store.members.push(member("b-3", "Bea", &["vocalist"], Some("m-gone"), 1));
    store.members.push(member("b-4", "Cid", &["drummer"], None, 0));
    store.members.push(member("b-5", "Abe", &["bassist"], Some("m-v2"), 0));

    let mut snare = instrument("i-snare", "Snare", "drums", Routing::Mic, 2);
    snare.member_id = Some(text("b-4"));
    store.instruments.push(snare);
    store.instruments.push(instrument("i-kick", "Kick", "drums", Routing::DirectInjection, 1));
    store.instruments.push(instrument("i-synth", "Synth", "keyboard", Routing::Multi, 0));
    store.instruments.push(instrument("i-uke", "Ukulele", "ukulele", Routing::DirectInjection, 0));
    store.instruments.push(instrument("i-bass2", "Bass B", "bass", Routing::DirectInjection, 1));
    store.instruments.push(instrument("i-bass1", "Bass A", "bass", Routing::DirectInjection, 1));
    store.instruments.push(instrument("i-gtr", "Guitar", "guitar", Routing::DirectInjection, 9));
    store.instruments.push(instrument("i-gtr-amp", "Les Paul", "guitar", Routing::Mic, 0));
    store.instruments.push(instrument("i-bass0", "Bass Z", "bass", Routing::DirectInjection, 0));
    store.instruments[2].mono_stereo = MonoStereo::Stereo;

    let mut twin = amplifier("a-twin", "Twin", Routing::Mic);
    twin.member_id = Some(text("b-1"));
    store.amplifiers.push(twin);
    store.amplifiers.push(amplifier("a-bass", "Ampeg", Routing::DirectInjection));
    store.amplifiers.push(amplifier("a-ac", "AC30", Routing::Multi));
    store.amplifiers.push(amplifier("a-mic-none", "Silent", Routing::Mic));
    store.amplifiers.push(amplifier("a-jc", "JC120", Routing::DirectInjection));

    let mut add = |id: &str, name: &str, model: &str, to: Assignment| {
        let mut m = microphone(id, name, model);
        m.assignment = to;
        store.microphones.push(m);
    };
    add("m-sn-b", "Snare Bottom", "SM57", placed(TargetKind::Instrument, "i-snare"));
    add("m-k", "Kick In", "Beta91", placed(TargetKind::Instrument, "i-kick"));
    add("m-sn-t", "Snare Top", "SM57", placed(TargetKind::Instrument, "i-snare"));
    add("m-tw", "Twin Mic", "e906", placed(TargetKind::Amplifier, "a-twin"));
    add("m-jc", "JC Mic", "MD421", placed(TargetKind::Amplifier, "a-jc"));
    add("m-lost", "Lost", "X", placed(TargetKind::Amplifier, "a-gone"));
    add("m-gtr", "On Guitar", "X", placed(TargetKind::Instrument, "i-gtr"));
    add("m-v1", "Vox 1", "SM58", Assignment::Unassigned);
    add("m-v2", "Vox 2", "Beta58", Assignment::Unassigned);
    add("m-spare", "Spare", "X", Assignment::Unassigned);
    store
}

#[test]
fn categories_come_in_their_fixed_order_each_in_its_own() {
    let store = full_stage();
    let list = channel_list_generate(&store);
    assert_eq!(
        names(&list),
        vec![
            text("Kick In \u{2014} Kick"),
            text("Snare Bottom \u{2014} Snare"),
            text("Snare Top \u{2014} Snare"),
            text("Bass Z"),
            text("Bass A"),
            text("Bass B"),
            text("Guitar"),
            text("Synth"),
            text("Ukulele"),
            text("JC Mic \u{2014} JC120"),
            text("Twin Mic \u{2014} Twin"),
            text("Amp \u{2014} AC30"),
            text("Amp \u{2014} Ampeg"),
            text("Voz - Bea"),
            text("Voz - Ana"),
            text("Voz - Abe"),
            text("Voz - Zoe"),
        ]
    );
    assert_eq!(numbers(&list), (1..=17).collect::<Vec<i64>>());
}

#[test]
fn sources_name_each_signal_path_once() {
    let store = full_stage();
    let sources = channel_sources(&store);
    assert_eq!(
        sources,
        vec![
            Source::DrumMic { microphone: 1, instrument: 1 },
            Source::DrumMic { microphone: 0, instrument: 0 },
            Source::DrumMic { microphone: 2, instrument: 0 },
            Source::DirectInstrument { instrument: 8 },
            Source::DirectInstrument { instrument: 5 },
            Source::DirectInstrument { instrument: 4 },
            Source::DirectInstrument { instrument: 6 },
            Source::DirectInstrument { instrument: 2 },
            Source::DirectInstrument { instrument: 3 },
            Source::AmplifierMic { microphone: 4, amplifier: 4 },
            Source::AmplifierMic { microphone: 3, amplifier: 0 },
            Source::DirectAmplifier { amplifier: 2 },
            Source::DirectAmplifier { amplifier: 1 },
            Source::Vocal { member: 2, microphone: None },
            Source::Vocal { member: 1, microphone: Some(7) },
            Source::Vocal { member: 4, microphone: Some(8) },
            Source::Vocal { member: 0, microphone: Some(8) },
        ]
    );
    for (i, a) in sources.iter().enumerate() {
        for b in sources.iter().skip(i + 1) {
            assert_ne!(a, b);
        }
    }
}

#[test]
fn entries_carry_what_their_sources_say() {
    let store = full_stage();
    let list = channel_list_generate(&store);
    assert_eq!(list[1].member_id, Some(text("b-4")));
    assert_eq!(list[1].mic_model, Some(text("SM57")));
    assert_eq!(list[7].name, text("Synth"));
    assert_eq!(list[7].mono_stereo, MonoStereo::Stereo);
    assert_eq!(list[7].mic_type, None);
    assert_eq!(list[7].phantom_power, false);
    assert_eq!(list[10].member_id, Some(text("b-1")));
    assert_eq!(list[10].mono_stereo, MonoStereo::Mono);
    assert_eq!(list[11].mic_model, Some(text("DI box / high-impedance input")));
    assert_eq!(
        list[13],
        ChannelEntry {
            channel_number: 14,
            name: text("Voz - Bea"),
            mono_stereo: MonoStereo::Mono,
            phantom_power: false,
            mic_model: None,
            mic_type: None,
            polar_pattern: None,
            notes: None,
            member_id: Some(text("b-3")),
        }
    );
    assert_eq!(list[14].mic_model, Some(text("SM58")));
    assert_eq!(list[15].mic_model, Some(text("Beta58")));
    assert_eq!(list[16].mic_model, Some(text("Beta58")));
    for entry in &list {
        assert_eq!(entry.notes, None);
    }
}

#[test]
fn resolving_twice_gives_the_same_list() {
    let store = full_stage();
    assert_eq!(channel_list_generate(&store), channel_list_generate(&store));
    assert_eq!(channel_sources(&store), channel_sources(&store));
    let copy = store.clone();
    assert_eq!(channel_list_generate(&store), channel_list_generate(&copy));
}

#[test]
fn a_role_that_only_contains_the_word_is_no_vocalist() {
    let mut store = EquipmentStore::new();
    store.microphones.push(microphone("m-1", "Vox", "SM58"));
    store.members.push(member("b-1", "Backing", &["backing vocalist"], Some("m-1"), 0));
    store.members.push(member("b-2", "Lead", &["vocalist"], Some("m-1"), 9));
    assert_eq!(
        names(&channel_list_generate(&store)),
        vec![text("Voz - Lead"), text("Voz - Backing")]
    );
}

#[test]
fn microphone_on_a_non_drum_instrument_makes_no_entry() {
    let mut store = EquipmentStore::new();
    store.instruments.push(instrument("i-sax", "Sax", "other", Routing::Mic, 0));
    let mut mic = microphone("m-1", "Clip", "Beta98");
    mic.assignment = placed(TargetKind::Instrument, "i-sax");
    store.microphones.push(mic);
    assert_eq!(channel_list_generate(&store), Vec::<ChannelEntry>::new());
    assert_eq!(channel_sources(&store), Vec::<Source>::new());
}

#[test]
fn direct_drums_make_no_direct_entry() {
    let mut store = EquipmentStore::new();
    store.instruments.push(instrument("i-pad", "Pad", "drums", Routing::DirectInjection, 0));
    assert_eq!(channel_list_generate(&store), Vec::<ChannelEntry>::new());
}
