use blackout_orm::assignments::{has_microphones, has_target, set_microphone_assignments};
use blackout_orm::gear::{
    amplifiers_create, amplifiers_delete, amplifiers_get_all, amplifiers_insert,
    amplifiers_update, instruments_create, instruments_delete, instruments_get_all,
    instruments_insert, instruments_update, pa_create, pa_delete, pa_get_all, pa_insert,
    pa_update,
};
use blackout_orm::model::{
    AmplifierPayload, Assignment, InstrumentPayload, MemberPayload, MicrophonePayload,
    MonoStereo, PaPayload, Routing, TargetKind,
};
use blackout_orm::records::{
    members_create, members_delete, members_get_all, members_insert, members_update,
    microphones_create, microphones_delete, microphones_get_all, microphones_insert,
    microphones_update,
};
use blackout_orm::store::{EquipmentStore, StoreError};

fn text(s: &str) -> String {
    s.to_string()
}

fn member_payload(name: &str, order: Option<i64>, mic: Option<&str>) -> MemberPayload {
    MemberPayload {
        name: text(name),
        roles: vec![text("vocalist")],
        stage_position: Some(text("center")),
        vocal_mic_id: mic.map(text),
        notes: None,
        sort_order: order,
    }
}

fn mic_payload(name: &str, to: Assignment) -> MicrophonePayload {
    MicrophonePayload {
        name: text(name),
        brand: Some(text("Shure")),
        model: Some(text("SM58")),
        mic_type: text("dynamic"),
        polar_pattern: None,
        phantom_power: None,
        mono_stereo: None,
        notes: None,
        usage: None,
        assignment: to,
    }
}

fn instrument_payload(name: &str, owner: Option<&str>, amp: Option<&str>) -> InstrumentPayload {
    InstrumentPayload {
        member_id: owner.map(text),
        name: text(name),
        instrument_type: text("guitar"),
        brand: None,
        model: None,
        routing: None,
        amp_id: amp.map(text),
        mono_stereo: None,
        channel_order: None,
        notes: None,
    }
}

fn amplifier_payload(name: &str, owner: Option<&str>) -> AmplifierPayload {
    AmplifierPayload {
        member_id: owner.map(text),
        name: text(name),
        amp_type: text("combo"),
        brand: None,
        model: None,
        wattage: Some(30),
        routing: None,
        mono_stereo: None,
        stage_position: None,
        notes: None,
        cabinet_brand: None,
        speaker_brand: None,
        speaker_model: None,
        speaker_config: None,
    }
}

fn pa_payload(category: &str, name: &str) -> PaPayload {
    PaPayload {
        category: text(category),
        name: text(name),
        brand: None,
        model: None,
        quantity: None,
        channels: Some(16),
        aux_sends: None,
        wattage: None,
        notes: None,
        monitor_type: None,
        iem_wireless: None,
    }
}

fn assert_fresh_id(id: &str) {
    assert_eq!(id.len(), 36);
    for (i, c) in id.chars().enumerate() {
        if i == 8 || i == 13 || i == 18 || i == 23 {
            assert_eq!(c, '-');
        } else {
            assert!(c.is_ascii_digit() || ('a'..='f').contains(&c));
        }
    }
}

#[test]
fn created_records_get_fresh_ids_and_defaults() {
    let mut store = EquipmentStore::new();
    let mic = microphones_create(&mut store, mic_payload("Vox", Assignment::Unassigned)).unwrap();
    assert_fresh_id(&mic.id);
    assert_eq!(mic.phantom_power, false);
    assert_eq!(mic.mono_stereo, MonoStereo::Mono);
    let m = members_create(&mut store, member_payload("Ana", None, Some(&mic.id))).unwrap();
    assert_fresh_id(&m.id);
    assert_ne!(m.id, mic.id);
    assert_eq!(m.sort_order, 0);
    assert_eq!(m.vocal_mic_id, Some(mic.id.clone()));
    let amp = amplifiers_create(&mut store, amplifier_payload("Twin", Some(&m.id))).unwrap();
    assert_fresh_id(&amp.id);
    assert_eq!(amp.routing, Routing::DirectInjection);
    assert_eq!(amp.mono_stereo, MonoStereo::Mono);
    let inst =
        instruments_create(&mut store, instrument_payload("Strat", Some(&m.id), Some(&amp.id)))
            .unwrap();
    assert_fresh_id(&inst.id);
    assert_eq!(inst.routing, Routing::DirectInjection);
    assert_eq!(inst.channel_order, 0);
    assert_eq!(inst.mono_stereo, MonoStereo::Mono);
    let pa = pa_create(&mut store, pa_payload("mixer", "X32")).unwrap();
    assert_fresh_id(&pa.id);
    assert_eq!(pa.quantity, 1);
    assert_eq!(pa.iem_wireless, false);
    assert_eq!(store.members, vec![m]);
    assert_eq!(store.microphones, vec![mic]);
    assert_eq!(store.amplifiers, vec![amp]);
    assert_eq!(store.instruments, vec![inst]);
    assert_eq!(store.pa_equipment, vec![pa]);
    let other = members_create(&mut store, member_payload("Bea", Some(3), None)).unwrap();
    assert_ne!(other.id, store.members[0].id);
    assert_eq!(other.sort_order, 3);
}

#[test]
fn inserting_refuses_taken_ids_and_unknown_references() {
    let mut store = EquipmentStore::new();
    assert!(members_insert(&mut store, text("b-1"), member_payload("Ana", None, None)).is_ok());
    let untouched = store.clone();
    assert_eq!(
        members_insert(&mut store, text("b-1"), member_payload("Bea", None, None)),
        Err(StoreError::DuplicateId)
    );
    assert_eq!(
        members_insert(&mut store, text("b-2"), member_payload("Bea", None, Some("m-none"))),
        Err(StoreError::InvalidReference)
    );
    assert_eq!(
        members_insert(&mut store, text("b-1"), member_payload("Bea", None, Some("m-none"))),
        Err(StoreError::InvalidReference)
    );
    assert_eq!(
        microphones_insert(
            &mut store,
            text("m-1"),
            mic_payload(
                "Vox",
                Assignment::AssignedTo { kind: TargetKind::Amplifier, target_id: text("a-none") }
            )
        ),
        Err(StoreError::InvalidReference)
    );
    assert_eq!(
        instruments_insert(&mut store, text("i-1"), instrument_payload("S", Some("b-9"), None)),
        Err(StoreError::InvalidReference)
    );
    assert_eq!(
        instruments_insert(&mut store, text("i-1"), instrument_payload("S", None, Some("a-9"))),
        Err(StoreError::InvalidReference)
    );
    assert_eq!(
        amplifiers_insert(&mut store, text("a-1"), amplifier_payload("T", Some("b-9"))),
        Err(StoreError::InvalidReference)
    );
    assert_eq!(store, untouched);
    assert!(pa_insert(&mut store, text("p-1"), pa_payload("mixer", "X32")).is_ok());
    assert_eq!(
        pa_insert(&mut store, text("p-1"), pa_payload("mixer", "X32")),
        Err(StoreError::DuplicateId)
    );
    assert!(amplifiers_insert(&mut store, text("a-1"), amplifier_payload("T", Some("b-1"))).is_ok());
    assert_eq!(
        amplifiers_insert(&mut store, text("a-1"), amplifier_payload("T", Some("b-1"))),
        Err(StoreError::DuplicateId)
    );
    assert!(instruments_insert(
        &mut store,
        text("i-1"),
        instrument_payload("S", Some("b-1"), Some("a-1"))
    )
    .is_ok());
    assert_eq!(
        instruments_insert(&mut store, text("i-1"), instrument_payload("S", None, None)),
        Err(StoreError::DuplicateId)
    );
    assert!(microphones_insert(
        &mut store,
        text("m-1"),
        mic_payload(
            "Vox",
            Assignment::AssignedTo { kind: TargetKind::Instrument, target_id: text("i-1") }
        )
    )
    .is_ok());
    assert_eq!(
        microphones_insert(&mut store, text("m-1"), mic_payload("Vox", Assignment::Unassigned)),
        Err(StoreError::DuplicateId)
    );
}

#[test]
fn updating_replaces_the_record_with_the_id() {
    let mut store = EquipmentStore::new();
    members_insert(&mut store, text("b-1"), member_payload("Ana", None, None)).unwrap();
    members_insert(&mut store, text("b-2"), member_payload("Bea", None, None)).unwrap();
    microphones_insert(&mut store, text("m-1"), mic_payload("Vox", Assignment::Unassigned))
        .unwrap();
    let mut changed = store.members[1].clone();
    changed.name = text("Beatriz");
    changed.vocal_mic_id = Some(text("m-1"));
    assert_eq!(members_update(&mut store, changed.clone()), Ok(changed.clone()));
    assert_eq!(store.members[1], changed);
    assert_eq!(store.members[0].name, text("Ana"));

    let untouched = store.clone();
    let mut ghost = changed.clone();
    ghost.id = text("b-9");
    assert_eq!(members_update(&mut store, ghost), Err(StoreError::NotFound));
    let mut dangling = changed.clone();
    dangling.vocal_mic_id = Some(text("m-9"));
    assert_eq!(members_update(&mut store, dangling), Err(StoreError::InvalidReference));
    assert_eq!(store, untouched);

    let mut mic = store.microphones[0].clone();
    mic.name = text("Lead Vox");
    assert_eq!(microphones_update(&mut store, mic.clone()), Ok(mic.clone()));
    assert_eq!(store.microphones[0], mic);
    mic.assignment = Assignment::AssignedTo { kind: TargetKind::Amplifier, target_id: text("x") };
    assert_eq!(microphones_update(&mut store, mic.clone()), Err(StoreError::InvalidReference));
    mic.assignment = Assignment::Unassigned;
    mic.id = text("m-9");
    assert_eq!(microphones_update(&mut store, mic), Err(StoreError::NotFound));

    amplifiers_insert(&mut store, text("a-1"), amplifier_payload("Twin", None)).unwrap();
    let mut amp = store.amplifiers[0].clone();
    amp.routing = Routing::Mic;
    amp.member_id = Some(text("b-1"));
    assert_eq!(amplifiers_update(&mut store, amp.clone()), Ok(amp.clone()));
    assert_eq!(store.amplifiers[0], amp);
    amp.member_id = Some(text("b-9"));
    assert_eq!(amplifiers_update(&mut store, amp.clone()), Err(StoreError::InvalidReference));
    amp.member_id = None;
    amp.id = text("a-9");
    assert_eq!(amplifiers_update(&mut store, amp), Err(StoreError::NotFound));

    instruments_insert(&mut store, text("i-1"), instrument_payload("Strat", None, None)).unwrap();
    let mut inst = store.instruments[0].clone();
    inst.amp_id = Some(text("a-1"));
    inst.channel_order = 4;
    assert_eq!(instruments_update(&mut store, inst.clone()), Ok(inst.clone()));
    assert_eq!(store.instruments[0], inst);
    inst.amp_id = Some(text("a-9"));
    assert_eq!(instruments_update(&mut store, inst.clone()), Err(StoreError::InvalidReference));
    inst.amp_id = None;
    inst.id = text("i-9");
    assert_eq!(instruments_update(&mut store, inst), Err(StoreError::NotFound));

    pa_insert(&mut store, text("p-1"), pa_payload("mixer", "X32")).unwrap();
    let mut pa = store.pa_equipment[0].clone();
    pa.quantity = 2;
    assert_eq!(pa_update(&mut store, pa.clone()), Ok(pa.clone()));
    assert_eq!(store.pa_equipment[0], pa);
    pa.id = text("p-9");
    assert_eq!(pa_update(&mut store, pa), Err(StoreError::NotFound));
}

fn linked_store() -> EquipmentStore {
    let mut store = EquipmentStore::new();
    members_insert(&mut store, text("b-1"), member_payload("Ana", None, None)).unwrap();
    members_insert(&mut store, text("b-2"), member_payload("Bea", None, None)).unwrap();
    amplifiers_insert(&mut store, text("a-1"), amplifier_payload("Twin", Some("b-1"))).unwrap();
    amplifiers_insert(&mut store, text("a-2"), amplifier_payload("AC30", Some("b-2"))).unwrap();
    instruments_insert(
        &mut store,
        text("i-1"),
        instrument_payload("Strat", Some("b-1"), Some("a-1")),
    )
    .unwrap();
    instruments_insert(
        &mut store,
        text("i-2"),
        instrument_payload("Tele", Some("b-2"), Some("a-2")),
    )
    .unwrap();
    let on = |kind, id: &str| Assignment::AssignedTo { kind, target_id: text(id) };
    microphones_insert(&mut store, text("m-1"), mic_payload("A", on(TargetKind::Amplifier, "a-1")))
        .unwrap();
    microphones_insert(&mut store, text("m-2"), mic_payload("B", on(TargetKind::Amplifier, "a-2")))
        .unwrap();
    microphones_insert(
        &mut store,
        text("m-3"),
        mic_payload("C", on(TargetKind::Instrument, "i-1")),
    )
    .unwrap();
    microphones_insert(&mut store, text("m-4"), mic_payload("D", Assignment::Unassigned)).unwrap();
    let mut ana = store.members[0].clone();
    ana.vocal_mic_id = Some(text("m-4"));
    members_update(&mut store, ana).unwrap();
    store
}

#[test]
fn removing_a_member_leaves_its_gear_without_owner() {
    let mut store = linked_store();
    assert_eq!(members_delete(&mut store, text("b-1")), Ok(()));
    assert_eq!(store.members.len(), 1);
    assert_eq!(store.members[0].id, text("b-2"));
    assert_eq!(store.instruments[0].member_id, None);
    assert_eq!(store.instruments[1].member_id, Some(text("b-2")));
    assert_eq!(store.amplifiers[0].member_id, None);
    assert_eq!(store.amplifiers[1].member_id, Some(text("b-2")));
    let untouched = store.clone();
    assert_eq!(members_delete(&mut store, text("b-1")), Err(StoreError::NotFound));
    assert_eq!(store, untouched);
}

#[test]
fn removing_a_microphone_takes_it_off_its_singers() {
    let mut store = linked_store();
    assert_eq!(microphones_delete(&mut store, text("m-4")), Ok(()));
    assert_eq!(store.microphones.len(), 3);
    assert_eq!(store.members[0].vocal_mic_id, None);
    assert_eq!(microphones_delete(&mut store, text("m-4")), Err(StoreError::NotFound));
}

#[test]
fn removing_an_instrument_releases_its_microphones() {
    let mut store = linked_store();
    assert_eq!(instruments_delete(&mut store, text("i-1")), Ok(()));
    assert_eq!(store.instruments.len(), 1);
    assert_eq!(store.instruments[0].id, text("i-2"));
    assert_eq!(store.microphones[2].assignment, Assignment::Unassigned);
    assert_ne!(store.microphones[0].assignment, Assignment::Unassigned);
    assert_eq!(instruments_delete(&mut store, text("i-1")), Err(StoreError::NotFound));
}

#[test]
fn removing_an_amplifier_releases_microphones_and_links() {
    let mut store = linked_store();
    assert_eq!(amplifiers_delete(&mut store, text("a-1")), Ok(()));
    assert_eq!(store.amplifiers.len(), 1);
    assert_eq!(store.amplifiers[0].id, text("a-2"));
    assert_eq!(store.microphones[0].assignment, Assignment::Unassigned);
    assert_ne!(store.microphones[1].assignment, Assignment::Unassigned);
    assert_eq!(store.instruments[0].amp_id, None);
    assert_eq!(store.instruments[1].amp_id, Some(text("a-2")));
    assert_eq!(amplifiers_delete(&mut store, text("a-1")), Err(StoreError::NotFound));
}

#[test]
fn removing_front_of_house_gear() {
    let mut store = EquipmentStore::new();
    pa_insert(&mut store, text("p-1"), pa_payload("mixer", "X32")).unwrap();
    pa_insert(&mut store, text("p-2"), pa_payload("monitor", "Wedge")).unwrap();
    assert_eq!(pa_delete(&mut store, text("p-1")), Ok(()));
    assert_eq!(store.pa_equipment.len(), 1);
    assert_eq!(store.pa_equipment[0].id, text("p-2"));
    assert_eq!(pa_delete(&mut store, text("p-1")), Err(StoreError::NotFound));
}

#[test]
fn listings_come_in_their_orders() {
    let mut store = EquipmentStore::new();
    for (id, name, order) in [("b-1", "Zoe", 1), ("b-2", "Ana", 1), ("b-3", "Moe", 0)] {
        members_insert(&mut store, text(id), member_payload(name, Some(order), None)).unwrap();
    }
    let listed: Vec<String> = members_get_all(&store).into_iter().map(|m| m.name).collect();
    assert_eq!(listed, vec![text("Moe"), text("Ana"), text("Zoe")]);

    for (id, name) in [("m-1", "b"), ("m-2", "a"), ("m-3", "B")] {
        microphones_insert(&mut store, text(id), mic_payload(name, Assignment::Unassigned))
            .unwrap();
    }
    let listed: Vec<String> = microphones_get_all(&store).into_iter().map(|m| m.name).collect();
    assert_eq!(listed, vec![text("B"), text("a"), text("b")]);

    for (id, name, order) in [("i-1", "b", 2), ("i-2", "a", 2), ("i-3", "z", 1)] {
        let mut p = instrument_payload(name, None, None);
        p.channel_order = Some(order);
        instruments_insert(&mut store, text(id), p).unwrap();
    }
    let listed: Vec<String> = instruments_get_all(&store).into_iter().map(|m| m.name).collect();
    assert_eq!(listed, vec![text("z"), text("a"), text("b")]);

    for (id, name) in [("a-1", "Twin"), ("a-2", "AC30")] {
        amplifiers_insert(&mut store, text(id), amplifier_payload(name, None)).unwrap();
    }
    let listed: Vec<String> = amplifiers_get_all(&store).into_iter().map(|m| m.name).collect();
    assert_eq!(listed, vec![text("AC30"), text("Twin")]);

    for (id, category, name) in
        [("p-1", "monitor", "b"), ("p-2", "mixer", "z"), ("p-3", "monitor", "a")]
    {
        pa_insert(&mut store, text(id), pa_payload(category, name)).unwrap();
    }
    let listed: Vec<String> = pa_get_all(&store).into_iter().map(|m| m.id).collect();
    assert_eq!(listed, vec![text("p-2"), text("p-3"), text("p-1")]);
}

#[test]
fn targets_and_microphones_are_looked_up_by_id() {
    let store = linked_store();
    assert!(has_target(&store, TargetKind::Amplifier, "a-1"));
    assert!(!has_target(&store, TargetKind::Instrument, "a-1"));
    assert!(has_target(&store, TargetKind::Instrument, "i-2"));
    assert!(has_microphones(&store, &vec![text("m-1"), text("m-4")]));
    assert!(!has_microphones(&store, &vec![text("m-1"), text("m-9")]));
    assert!(has_microphones(&store, &Vec::new()));
    assert_eq!(store.find_member("b-2"), Some(1));
    assert_eq!(store.find_member("b-9"), None);
    assert_eq!(store.find_microphone("m-3"), Some(2));
    assert_eq!(store.find_instrument("i-1"), Some(0));
    assert_eq!(store.find_amplifier("a-2"), Some(1));
    assert_eq!(store.find_pa("p-1"), None);
}

#[test]
fn placing_microphones_moves_and_removes_as_asked() {
    let mut store = linked_store();
    let ids = vec![text("m-2"), text("m-4")];
    assert_eq!(set_microphone_assignments(&mut store, TargetKind::Amplifier, "a-1", &ids), Ok(()));
    let on = |id: &str| Assignment::AssignedTo { kind: TargetKind::Amplifier, target_id: text(id) };
    assert_eq!(store.microphones[0].assignment, Assignment::Unassigned);
    assert_eq!(store.microphones[1].assignment, on("a-1"));
    assert_eq!(
        store.microphones[2].assignment,
        Assignment::AssignedTo { kind: TargetKind::Instrument, target_id: text("i-1") }
    );
    assert_eq!(store.microphones[3].assignment, on("a-1"));
}
