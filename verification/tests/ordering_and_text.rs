use blackout_orm::model::{Assignment, MonoStereo, Routing, TargetKind};
use blackout_orm::ordering::{is_key_le, sort_positions, OrderKey};
use blackout_orm::text::{
    copy_opt_text, copy_text, copy_texts, holds_text, is_same_text, is_text_le,
};

fn key(group: u8, order: i64, name: &str, tie: &str) -> OrderKey {
    OrderKey { group, order, name: name.to_string(), tie: tie.to_string() }
}

#[test]
fn text_order_is_the_order_of_the_bytes() {
    assert!(is_text_le("", ""));
    assert!(is_text_le("", "a"));
    assert!(!is_text_le("a", ""));
    assert!(is_text_le("abc", "abd"));
    assert!(!is_text_le("abd", "abc"));
    assert!(is_text_le("ab", "abc"));
    assert!(!is_text_le("abc", "ab"));
    assert!(is_text_le("Zebra", "apple"));
    assert!(!is_text_le("apple", "Zebra"));
    assert!(is_text_le("z", "\u{e9}"));
    assert!(!is_text_le("\u{e9}", "z"));
    assert_eq!(is_text_le("Bajo", "Bater\u{ed}a"), "Bajo" <= "Bater\u{ed}a");
}

#[test]
fn same_text_compares_characters() {
    assert!(is_same_text("", ""));
    assert!(is_same_text("drums", "drums"));
    assert!(!is_same_text("drums", "drum"));
    assert!(!is_same_text("drums", "Drums"));
    assert!(is_same_text("Voz \u{2014} x", "Voz \u{2014} x"));
}

#[test]
fn copies_are_equal_to_what_was_copied() {
    assert_eq!(copy_text(&"abc".to_string()), "abc".to_string());
    assert_eq!(copy_opt_text(&None), None);
    assert_eq!(copy_opt_text(&Some("x".to_string())), Some("x".to_string()));
    let list = vec!["a".to_string(), "b".to_string()];
    assert_eq!(copy_texts(&list), list);
}

#[test]
fn holds_text_finds_whole_texts_only() {
    let roles = vec!["lead vocalist".to_string(), "guitarist".to_string()];
    assert!(!holds_text(&roles, "vocalist"));
    assert!(holds_text(&roles, "guitarist"));
    assert!(!holds_text(&Vec::new(), "guitarist"));
}

#[test]
fn keys_compare_part_by_part() {
    assert!(is_key_le(&key(0, 9, "z", "z"), &key(1, 0, "a", "a")));
    assert!(!is_key_le(&key(1, 0, "a", "a"), &key(0, 9, "z", "z")));
    assert!(is_key_le(&key(1, -5, "z", "z"), &key(1, 0, "a", "a")));
    assert!(is_key_le(&key(1, 0, "a", "z"), &key(1, 0, "b", "a")));
    assert!(is_key_le(&key(1, 0, "a", "a"), &key(1, 0, "a", "b")));
    assert!(!is_key_le(&key(1, 0, "a", "b"), &key(1, 0, "a", "a")));
    assert!(is_key_le(&key(1, 0, "a", "a"), &key(1, 0, "a", "a")));
}

#[test]
fn sort_positions_is_stable() {
    let keys = vec![
        key(0, 2, "b", ""),
        key(0, 1, "z", ""),
        key(0, 2, "a", ""),
        key(0, 1, "z", ""),
        key(0, 0, "m", ""),
        key(0, 2, "b", ""),
    ];
    assert_eq!(sort_positions(&keys), vec![4, 1, 3, 2, 0, 5]);
    assert_eq!(sort_positions(&Vec::new()), Vec::<usize>::new());
    assert_eq!(sort_positions(&vec![key(3, 3, "x", "y")]), vec![0]);
}

#[test]
fn sort_positions_orders_what_arrives_in_reverse() {
    let keys: Vec<OrderKey> = (0..20).map(|i| key(0, 20 - i, "n", "")).collect();
    let order = sort_positions(&keys);
    let want: Vec<usize> = (0..20).rev().collect();
    assert_eq!(order, want);
}

#[test]
fn routing_codes_round_trip() {
    assert_eq!(Routing::from_code("di"), Routing::DirectInjection);
    assert_eq!(Routing::from_code("mesa"), Routing::Multi);
    assert_eq!(Routing::from_code("amp"), Routing::Mic);
    assert_eq!(Routing::from_code("mic"), Routing::Mic);
    assert_eq!(Routing::from_code("anything"), Routing::Mic);
    assert_eq!(Routing::DirectInjection.code(TargetKind::Instrument), "di");
    assert_eq!(Routing::Multi.code(TargetKind::Amplifier), "mesa");
    assert_eq!(Routing::Mic.code(TargetKind::Instrument), "amp");
    assert_eq!(Routing::Mic.code(TargetKind::Amplifier), "mic");
    assert!(Routing::DirectInjection.is_direct());
    assert!(Routing::Multi.is_direct());
    assert!(!Routing::Mic.is_direct());
}

#[test]
fn mono_stereo_codes_round_trip() {
    assert_eq!(MonoStereo::from_code("stereo"), MonoStereo::Stereo);
    assert_eq!(MonoStereo::from_code("mono"), MonoStereo::Mono);
    assert_eq!(MonoStereo::from_code(""), MonoStereo::Mono);
    assert_eq!(MonoStereo::Mono.code(), "mono");
    assert_eq!(MonoStereo::Stereo.code(), "stereo");
}

#[test]
fn assignment_columns_round_trip() {
    let some = |s: &str| Some(s.to_string());
    assert_eq!(Assignment::from_columns(&None, &None), Assignment::Unassigned);
    assert_eq!(Assignment::from_columns(&some("instrument"), &None), Assignment::Unassigned);
    assert_eq!(Assignment::from_columns(&None, &some("x")), Assignment::Unassigned);
    assert_eq!(Assignment::from_columns(&some("member"), &some("x")), Assignment::Unassigned);
    let on_instrument = Assignment::from_columns(&some("instrument"), &some("i-1"));
    assert_eq!(
        on_instrument,
        Assignment::AssignedTo { kind: TargetKind::Instrument, target_id: "i-1".to_string() }
    );
    let on_amplifier = Assignment::from_columns(&some("amplifier"), &some("a-1"));
    assert_eq!(
        on_amplifier,
        Assignment::AssignedTo { kind: TargetKind::Amplifier, target_id: "a-1".to_string() }
    );
    assert_eq!(on_instrument.kind_code(), some("instrument"));
    assert_eq!(on_amplifier.kind_code(), some("amplifier"));
    assert_eq!(on_amplifier.target(), some("a-1"));
    assert_eq!(Assignment::Unassigned.kind_code(), None);
    assert_eq!(Assignment::Unassigned.target(), None);
    assert!(on_amplifier.points_at(TargetKind::Amplifier, "a-1"));
    assert!(!on_amplifier.points_at(TargetKind::Instrument, "a-1"));
    assert!(!on_amplifier.points_at(TargetKind::Amplifier, "a-2"));
    assert_eq!(on_amplifier.copy(), on_amplifier);
}
