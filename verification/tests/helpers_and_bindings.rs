use blackout_orm::bindings::{microphone_binding, microphone_bindings, MicBinding};
use blackout_orm::bpm::{is_space, trim_text};
use blackout_orm::calendar::month_prefix;
use blackout_orm::logbook::{gigs_forget_setlist, gigs_insert, LogbookStore};
use blackout_orm::logbook_model::GigPayload;
use blackout_orm::model::{
    Amplifier, Assignment, BandMember, Instrument, Microphone, MonoStereo, Routing, TargetKind,
};
use blackout_orm::numbers::{decimal, zero_padded_decimal};
use blackout_orm::roles::{roles_from_column, roles_to_column};
use blackout_orm::store::EquipmentStore;

fn text(s: &str) -> String {
    s.to_string()
}

fn texts(list: &[&str]) -> Vec<String> {
    list.iter().map(|s| text(s)).collect()
}

#[test]
fn roles_split_at_commas_and_drop_empty_parts() {
    assert_eq!(roles_from_column("vocalist,guitarist"), texts(&["vocalist", "guitarist"]));
    assert_eq!(roles_from_column("vocalist"), texts(&["vocalist"]));
    assert_eq!(roles_from_column(""), Vec::<String>::new());
    assert_eq!(roles_from_column(","), Vec::<String>::new());
    assert_eq!(roles_from_column(",a,,b,"), texts(&["a", "b"]));
    assert_eq!(roles_from_column("lead vocalist, keys"), texts(&["lead vocalist", " keys"]));
    assert_eq!(roles_from_column("bater\u{ed}a,voz"), texts(&["bater\u{ed}a", "voz"]));
    let column = ",a,,b\u{e9},c,";
    let std_way: Vec<String> =
        column.split(',').filter(|s| !s.is_empty()).map(|s| s.to_string()).collect();
    assert_eq!(roles_from_column(column), std_way);
}

#[test]
fn roles_join_with_commas() {
    assert_eq!(roles_to_column(&Vec::new()), text(""));
    assert_eq!(roles_to_column(&texts(&["vocalist"])), text("vocalist"));
    assert_eq!(roles_to_column(&texts(&["a", "b", "c"])), text("a,b,c"));
    assert_eq!(roles_to_column(&texts(&["", "b", ""])), text(",b,"));
    let roles = texts(&["vocalist", "guitarist"]);
    assert_eq!(roles_from_column(&roles_to_column(&roles)), roles);
}

#[test]
fn numbers_render_in_decimal() {
    assert_eq!(decimal(0), text("0"));
    assert_eq!(decimal(7), text("7"));
    assert_eq!(decimal(10), text("10"));
    assert_eq!(decimal(9876543210), text("9876543210"));
    assert_eq!(decimal(u64::MAX), u64::MAX.to_string());
    assert_eq!(zero_padded_decimal(5, 2), text("05"));
    assert_eq!(zero_padded_decimal(12, 2), text("12"));
    assert_eq!(zero_padded_decimal(123, 2), text("123"));
    assert_eq!(zero_padded_decimal(0, 4), text("0000"));
    assert_eq!(zero_padded_decimal(-5, 4), text("-005"));
    assert_eq!(zero_padded_decimal(-12345, 4), text("-12345"));
    assert_eq!(zero_padded_decimal(-5, 0), text("-5"));
    assert_eq!(zero_padded_decimal(i64::MIN, 4), text("-9223372036854775808"));
    assert_eq!(zero_padded_decimal(i64::MAX, 25), text("0000009223372036854775807"));
    for n in [-100000i64, -999, -10, -1, 0, 1, 9, 10, 99, 100, 2024, 99999] {
        assert_eq!(zero_padded_decimal(n, 4), format!("{:04}", n));
        assert_eq!(zero_padded_decimal(n, 2), format!("{:02}", n));
    }
}

#[test]
fn month_prefixes_are_padded() {
    assert_eq!(month_prefix(2024, 3), text("2024-03"));
    assert_eq!(month_prefix(2024, 12), text("2024-12"));
    assert_eq!(month_prefix(987, 1), text("0987-01"));
    assert_eq!(month_prefix(-5, -1), format!("{:04}-{:02}", -5, -1));
    assert_eq!(month_prefix(i32::MIN, i32::MAX), format!("{:04}-{:02}", i32::MIN, i32::MAX));
}

#[test]
fn trimming_takes_white_space_off_both_ends() {
    assert_eq!(trim_text(""), text(""));
    assert_eq!(trim_text("   "), text(""));
    assert_eq!(trim_text("a"), text("a"));
    assert_eq!(trim_text("  a b  "), text("a b"));
    assert_eq!(trim_text("\t\n a\u{a0}"), text("a"));
    assert_eq!(trim_text("\u{3000}\u{e9}t\u{e9} \u{2003}"), text("\u{e9}t\u{e9}"));
    for c in 0u32..0x3100 {
        if let Some(ch) = char::from_u32(c) {
            assert_eq!(is_space(ch), ch.is_whitespace());
        }
    }
    let sample = " \u{2028}x\u{1680}y\u{205f} ";
    assert_eq!(trim_text(sample), sample.trim().to_string());
}

fn microphone(id: &str, to: Assignment) -> Microphone {
    Microphone {
        id: text(id),
        name: text(id),
        brand: None,
        model: None,
        mic_type: text("dynamic"),
        polar_pattern: None,
        phantom_power: false,
        mono_stereo: MonoStereo::Mono,
        notes: None,
        usage: None,
        assignment: to,
    }
}

#[test]
fn microphones_are_bound_by_assignment_first() {
    let mut store = EquipmentStore::new();
    store.instruments.push(Instrument {
        id: text("i-1"),
        member_id: None,
        name: text("Kit"),
        instrument_type: text("drums"),
        brand: None,
        model: None,
        routing: Routing::Mic,
        amp_id: None,
        mono_stereo: MonoStereo::Mono,
        channel_order: 0,
        notes: None,
    });
    store.amplifiers.push(Amplifier {
        id: text("a-1"),
        member_id: None,
        name: text("Twin"),
        amp_type: text("combo"),
        brand: None,
        model: None,
        wattage: None,
        routing: Routing::Mic,
        mono_stereo: MonoStereo::Mono,
        stage_position: None,
        notes: None,
        cabinet_brand: None,
        speaker_brand: None,
        speaker_model: None,
        speaker_config: None,
    });
    let singer = |id: &str, mic: Option<&str>| BandMember {
        id: text(id),
        name: text(id),
        roles: Vec::new(),
        stage_position: None,
        vocal_mic_id: mic.map(text),
        notes: None,
        sort_order: 0,
    };
    store.members.push(singer("b-1", None));
    store.members.push(singer("b-2", Some("m-4")));
    store.members.push(singer("b-3", Some("m-4")));
    store.members.push(singer("b-4", Some("m-1")));
    store.members.push(singer("b-5", Some("m-5")));
    let on = |kind, id: &str| Assignment::AssignedTo { kind, target_id: text(id) };
    store.microphones.push(microphone("m-1", on(TargetKind::Instrument, "i-1")));
    store.microphones.push(microphone("m-2", on(TargetKind::Amplifier, "a-1")));
    store.microphones.push(microphone("m-3", Assignment::Unassigned));
    store.microphones.push(microphone("m-4", Assignment::Unassigned));
    store.microphones.push(microphone("m-5", on(TargetKind::Amplifier, "a-gone")));
    store.microphones.push(microphone("m-6", on(TargetKind::Instrument, "a-1")));
    assert_eq!(
        microphone_bindings(&store),
        vec![
            MicBinding::BoundToInstrument(text("i-1")),
            MicBinding::BoundToAmplifier(text("a-1")),
            MicBinding::Unassigned,
            MicBinding::BoundToVocalist(text("b-2")),
            MicBinding::BoundToVocalist(text("b-5")),
            MicBinding::Unassigned,
        ]
    );
    assert_eq!(microphone_binding(&store, 3), MicBinding::BoundToVocalist(text("b-2")));
    assert_eq!(microphone_bindings(&EquipmentStore::new()), Vec::<MicBinding>::new());
}

#[test]
fn a_removed_setlist_is_taken_off_its_gigs() {
    let mut store = LogbookStore::new();
    let gig = |setlist: Option<&str>| GigPayload {
        venue_id: None,
        title: text("x"),
        date: None,
        time: None,
        status: text("lead"),
        pay: None,
        load_in_time: None,
        soundcheck_time: None,
        set_time: None,
        setlist_id: setlist.map(text),
        notes: None,
        follow_up_date: None,
        follow_up_note: None,
    };
    gigs_insert(&mut store, text("g-1"), text("t"), gig(Some("p-1"))).unwrap();
    gigs_insert(&mut store, text("g-2"), text("t"), gig(Some("p-2"))).unwrap();
    gigs_insert(&mut store, text("g-3"), text("t"), gig(None)).unwrap();
    gigs_forget_setlist(&mut store, "p-1");
    assert_eq!(store.gigs[0].setlist_id, None);
    assert_eq!(store.gigs[1].setlist_id, Some(text("p-2")));
    assert_eq!(store.gigs[2].setlist_id, None);
}
