use dating_sim::ledger::Ledger;
use dating_sim::registry::{CharacterRegistry, STARTING_FAVOR};
use dating_sim::scene::{CharactersType, MissionType};

fn registry() -> CharacterRegistry {
    CharacterRegistry::new(vec![
        (CharactersType::Joe, "2".to_string()),
        (CharactersType::Jule, "3".to_string()),
        (CharactersType::Joe, "9".to_string()),
    ])
}

#[test]
fn registry_seeds_every_character() {
    let r = registry();
    assert_eq!(r.len(), 3);
    for i in 0..3 {
        assert_eq!(r.status(i).favor, STARTING_FAVOR);
        assert!(r.status(i).alive);
    }
    assert_eq!(r.status(1).current_scene, "3");
    assert_eq!(r.get(CharactersType::Jule).unwrap().current_scene, "3");
    assert_eq!(r.find(CharactersType::Joe), Some(0));
    assert_eq!(r.find(CharactersType::Cat), None);
    assert!(r.get(CharactersType::Cat).is_none());
}

#[test]
fn favor_clamps_at_zero_and_saturates() {
    let mut r = registry();
    r.adjust_favor(CharactersType::Jule, -7);
    assert_eq!(r.status(1).favor, 13);
    r.adjust_favor(CharactersType::Jule, -20);
    assert_eq!(r.status(1).favor, 0);
    r.adjust_favor(CharactersType::Jule, i64::MAX);
    assert_eq!(r.status(1).favor, u32::MAX);
    r.adjust_favor(CharactersType::Jule, i64::MIN);
    assert_eq!(r.status(1).favor, 0);
}

#[test]
fn changes_reach_first_entry_of_kind() {
    let mut r = registry();
    r.advance_dialogue(CharactersType::Joe, "5".to_string());
    assert_eq!(r.status(0).current_scene, "5");
    assert_eq!(r.status(2).current_scene, "9");
}

#[test]
fn missing_character_changes_nothing() {
    let mut r = registry();
    r.adjust_favor(CharactersType::Cat, 4);
    r.advance_dialogue(CharactersType::Cat, "1".to_string());
    r.mark_dead(CharactersType::Cat);
    for i in 0..3 {
        assert_eq!(r.status(i).favor, STARTING_FAVOR);
        assert!(r.status(i).alive);
    }
}

#[test]
fn dead_character_is_frozen() {
    let mut r = registry();
    r.mark_dead(CharactersType::Jule);
    assert!(!r.status(1).alive);
    r.adjust_favor(CharactersType::Jule, 10);
    r.advance_dialogue(CharactersType::Jule, "7".to_string());
    assert_eq!(r.status(1).favor, STARTING_FAVOR);
    assert_eq!(r.status(1).current_scene, "3");
    assert!(!r.status(1).alive);
}

#[test]
fn ledger_accumulates_in_order() {
    let mut l = Ledger::new();
    assert_eq!(l.flag("a"), 0);
    l.apply_outcome(&vec![("b".to_string(), 2), ("a".to_string(), -4), ("b".to_string(), 1)]);
    assert_eq!(l.flag("b"), 3);
    assert_eq!(l.flag("a"), -4);
    assert_eq!(l.snapshot(), vec![("b".to_string(), 3), ("a".to_string(), -4)]);
    l.add_to_flag(&"c".to_string(), 0);
    assert_eq!(l.snapshot().len(), 3);
    assert_eq!(l.flag("c"), 0);
}

#[test]
fn ledger_flags_saturate() {
    let mut l = Ledger::new();
    l.add_to_flag(&"x".to_string(), i64::MAX);
    l.add_to_flag(&"x".to_string(), 1);
    assert_eq!(l.flag("x"), i64::MAX);
    l.add_to_flag(&"y".to_string(), i64::MIN);
    l.add_to_flag(&"y".to_string(), -1);
    assert_eq!(l.flag("y"), i64::MIN);
}

#[test]
fn missions_keep_duplicates() {
    let mut l = Ledger::new();
    l.collect_mission(MissionType::Water);
    l.collect_mission(MissionType::Explore);
    l.collect_mission(MissionType::Water);
    assert_eq!(
        l.missions_view(),
        &vec![MissionType::Water, MissionType::Explore, MissionType::Water]
    );
}
