use radio_widget::config::AppConfig;
use radio_widget::models::StationRef;

fn st(id: &str, name: &str) -> StationRef {
    StationRef { stationuuid: id.to_owned(), name: name.to_owned() }
}

#[test]
fn toggling_an_absent_id_twice_restores_the_list_exactly() {
    let mut cfg = AppConfig {
        last_station: None,
        last_server: None,
        favorites: vec![st("a", "A"), st("b", "B"), st("c", "C")],
    };
    let before = cfg.favorites.clone();
    cfg.toggle_favorite(st("d", "D"));
    assert_eq!(cfg.favorites.len(), 4);
    cfg.toggle_favorite(st("d", "D"));
    assert_eq!(cfg.favorites, before);
}

#[test]
fn toggling_a_present_id_twice_keeps_the_same_ids() {
    let mut cfg = AppConfig {
        last_station: None,
        last_server: None,
        favorites: vec![st("a", "A"), st("b", "B"), st("c", "C")],
    };
    cfg.toggle_favorite(st("b", "B"));
    assert_eq!(cfg.favorites, vec![st("a", "A"), st("c", "C")]);
    cfg.toggle_favorite(st("b", "B"));
    let mut ids: Vec<String> = cfg.favorites.iter().map(|f| f.stationuuid.clone()).collect();
    ids.sort();
    assert_eq!(ids, vec!["a".to_owned(), "b".to_owned(), "c".to_owned()]);
    assert_eq!(cfg.favorites.len(), 3);
}

#[test]
fn toggle_removes_the_first_entry_with_the_id() {
    let mut cfg = AppConfig { last_station: None, last_server: None, favorites: vec![st("x", "X")] };
    cfg.toggle_favorite(st("x", "renamed"));
    assert!(cfg.favorites.is_empty());
}

#[test]
fn toggle_leaves_the_rest_of_the_config_alone() {
    let mut cfg = AppConfig {
        last_station: Some(st("a", "A")),
        last_server: Some("de1.api".to_owned()),
        favorites: vec![],
    };
    cfg.toggle_favorite(st("z", "Z"));
    assert_eq!(cfg.last_station, Some(st("a", "A")));
    assert_eq!(cfg.last_server.as_deref(), Some("de1.api"));
}

#[test]
fn snapshot_equals_its_source() {
    let cfg = AppConfig {
        last_station: Some(st("a", "A")),
        last_server: Some("s".to_owned()),
        favorites: vec![st("b", "B")],
    };
    assert_eq!(cfg.snapshot(), cfg);
    assert_eq!(AppConfig::default(), AppConfig { last_station: None, last_server: None, favorites: vec![] });
}
