use dating_sim::catalog::{load_scenes, SceneCatalog};
use dating_sim::scene::{CatalogError, CharactersType, DatingScene, MissionType, SceneRecord};

fn scene(id: &str, text: &[&str]) -> DatingScene {
    DatingScene {
        id: id.to_string(),
        person: None,
        text: text.iter().map(|t| t.to_string()).collect(),
        outcome: None,
        choice: None,
        mission: None,
    }
}

fn record(id: &str, person: Option<&str>, mission: Option<&str>) -> SceneRecord {
    SceneRecord {
        id: id.to_string(),
        person: person.map(|p| p.to_string()),
        text: vec!["Hello".to_string()],
        outcome: None,
        choice: None,
        mission: mission.map(|m| m.to_string()),
    }
}

fn branch(label: &str, target: &str) -> (String, String) {
    (label.to_string(), target.to_string())
}

#[test]
fn mission_tags_are_read() {
    assert_eq!(MissionType::from_tag("Water"), Some(MissionType::Water));
    assert_eq!(MissionType::from_tag("Explore"), Some(MissionType::Explore));
    assert_eq!(MissionType::from_tag("Oil"), Some(MissionType::Oil));
    assert_eq!(MissionType::from_tag("Iron"), Some(MissionType::Iron));
    assert_eq!(MissionType::from_tag("water"), None);
    assert_eq!(MissionType::from_tag(""), None);
}

#[test]
fn character_tags_are_read() {
    assert_eq!(CharactersType::from_tag("Joe"), Some(CharactersType::Joe));
    assert_eq!(CharactersType::from_tag("Cat"), Some(CharactersType::Cat));
    assert_eq!(CharactersType::from_tag("Diedrick"), Some(CharactersType::Diedrick));
    assert_eq!(CharactersType::from_tag("Main"), Some(CharactersType::Main));
    assert_eq!(CharactersType::from_tag("Jo"), None);
}

#[test]
fn record_becomes_scene() {
    let s = record("7", Some("Liv"), Some("Oil")).into_scene().unwrap();
    assert_eq!(s.id, "7");
    assert_eq!(s.person, Some(CharactersType::Liv));
    assert_eq!(s.mission, Some(MissionType::Oil));
    assert_eq!(s.text, vec!["Hello".to_string()]);
}

#[test]
fn unknown_person_tag_is_refused() {
    let r = record("7", Some("Bob"), Some("Gold")).into_scene();
    assert_eq!(
        r.unwrap_err(),
        CatalogError::UnknownCharacter { scene: "7".to_string(), tag: "Bob".to_string() }
    );
}

#[test]
fn unknown_mission_tag_is_refused() {
    let r = record("7", None, Some("Gold")).into_scene();
    assert_eq!(
        r.unwrap_err(),
        CatalogError::UnknownMission { scene: "7".to_string(), tag: "Gold".to_string() }
    );
}

#[test]
fn valid_catalog_is_indexed() {
    let c = SceneCatalog::new(vec![scene("1", &["a"]), scene("2", &["b", "c"])]).unwrap();
    assert_eq!(c.len(), 2);
    assert_eq!(c.position("2"), Some(1));
    assert_eq!(c.position("1"), Some(0));
    assert_eq!(c.position("3"), None);
    assert_eq!(c.get("2").unwrap().text.len(), 2);
    assert!(c.get("9").is_none());
    assert_eq!(c.scene(0).id, "1");
}

#[test]
fn empty_catalog_is_valid() {
    let c = SceneCatalog::new(vec![]).unwrap();
    assert_eq!(c.len(), 0);
}

#[test]
fn scene_without_lines_is_refused() {
    let r = SceneCatalog::new(vec![scene("1", &["a"]), scene("2", &[]), scene("2", &["x"])]);
    assert_eq!(r.err(), Some(CatalogError::EmptyText { scene: "2".to_string() }));
}

#[test]
fn duplicate_id_is_refused() {
    let r = SceneCatalog::new(vec![scene("1", &["a"]), scene("2", &["b"]), scene("1", &["c"])]);
    assert_eq!(r.err(), Some(CatalogError::DuplicateId { scene: "1".to_string() }));
}

#[test]
fn choice_to_missing_scene_is_refused() {
    let mut s = scene("1", &["a"]);
    s.choice = Some((branch("stay", "1"), branch("go", "5")));
    let r = SceneCatalog::new(vec![s, scene("2", &["b"])]);
    assert_eq!(
        r.err(),
        Some(CatalogError::UnknownTarget { scene: "1".to_string(), target: "5".to_string() })
    );
}

#[test]
fn choice_to_known_scenes_is_accepted() {
    let mut s = scene("1", &["a"]);
    s.choice = Some((branch("stay", "1"), branch("go", "2")));
    assert!(SceneCatalog::new(vec![s, scene("2", &["b"])]).is_ok());
}

#[test]
fn load_scenes_reads_tags_and_checks() {
    let c = load_scenes(vec![record("1", Some("Joe"), Some("Water")), record("2", None, None)])
        .unwrap();
    assert_eq!(c.len(), 2);
    assert_eq!(c.scene(0).mission, Some(MissionType::Water));
    assert_eq!(c.scene(0).person, Some(CharactersType::Joe));
}

#[test]
fn load_scenes_reports_first_bad_record() {
    let r = load_scenes(vec![
        record("1", None, None),
        record("2", None, Some("Sand")),
        record("3", Some("Nobody"), None),
    ]);
    assert_eq!(
        r.err(),
        Some(CatalogError::UnknownMission { scene: "2".to_string(), tag: "Sand".to_string() })
    );
}

#[test]
fn load_scenes_reports_catalog_error() {
    let r = load_scenes(vec![record("1", None, None), record("1", None, None)]);
    assert_eq!(r.err(), Some(CatalogError::DuplicateId { scene: "1".to_string() }));
}
