use tarkov_activity::catalog::RandomizeList;
use tarkov_activity::errors::{EmptySelectionError, FetchError};
use tarkov_activity::maps::maps;
use tarkov_activity::state::{App, Button, Content};

fn list(v: &[&str]) -> RandomizeList {
    RandomizeList(v.iter().map(|s| s.to_string()).collect())
}

fn page() -> String {
    "<html><body><a class=\"mw-redirect\" title=\"AK-74\">a</a>\
     <a class=\"mw-redirect\" title=\"M4A1\">b</a></body></html>"
        .to_string()
}

#[test]
fn new_state_holds_both_lists_and_shows_nothing() {
    let app = App::new(&page()).unwrap();
    assert_eq!(app.content.maps.0, maps().0);
    assert_eq!(app.content.weapons.0, vec!["AK-74".to_string(), "M4A1".to_string()]);
    assert_eq!(app.map, "");
    assert_eq!(app.weapon, "");
    assert_eq!(app.error, None);
}

#[test]
fn new_state_fails_as_the_weapons_fail() {
    assert_eq!(App::new("<html></html>").err(), Some(FetchError::NoWeapons));
}

#[test]
fn failed_state_holds_the_message_only() {
    let app = App::failed(FetchError::Page.message());
    assert_eq!(app.error, Some("Failed to get weapons page".to_string()));
    assert!(app.content.maps.0.is_empty());
    assert!(app.content.weapons.0.is_empty());
    assert_eq!(app.map, "");
    assert_eq!(app.weapon, "");
}

#[test]
fn default_state_is_empty() {
    let app = App::default();
    assert_eq!(app.error, None);
    assert!(app.content.maps.0.is_empty());
    assert!(app.content.weapons.0.is_empty());
}

#[test]
fn click_on_map_shows_a_map() {
    let mut app = App::new(&page()).unwrap();
    for _ in 0..50 {
        app.click(Button::PickMap);
        assert!(maps().0.contains(&app.map));
        assert_eq!(app.weapon, "");
        assert_eq!(app.error, None);
    }
}

#[test]
fn click_on_weapon_shows_a_weapon() {
    let mut app = App::new(&page()).unwrap();
    app.click(Button::PickMap);
    let map = app.map.clone();
    for _ in 0..50 {
        app.click(Button::PickWeapon);
        assert!(app.weapon == "AK-74" || app.weapon == "M4A1");
        assert_eq!(app.map, map);
        assert_eq!(app.error, None);
    }
}

#[test]
fn click_on_an_empty_list_sets_the_error() {
    let mut app = App {
        content: Content { maps: list(&["Woods"]), weapons: list(&[]) },
        map: "Woods".to_string(),
        weapon: "PKM".to_string(),
        error: None,
    };
    app.click(Button::PickWeapon);
    assert_eq!(app.error, Some("Cannot randomize empty list".to_string()));
    assert_eq!(app.weapon, "PKM");
    assert_eq!(app.map, "Woods");
    app.click(Button::PickMap);
    assert_eq!(app.map, "Woods");
    assert_eq!(app.error, Some("Cannot randomize empty list".to_string()));
}

#[test]
fn show_puts_a_name_beside_its_button() {
    let mut app = App::default();
    app.show(Button::PickMap, Ok("Customs".to_string()));
    assert_eq!(app.map, "Customs");
    assert_eq!(app.weapon, "");
    app.show(Button::PickWeapon, Ok("SVD".to_string()));
    assert_eq!(app.map, "Customs");
    assert_eq!(app.weapon, "SVD");
    assert_eq!(app.error, None);
}

#[test]
fn show_reports_a_failed_pick() {
    let mut app = App::default();
    app.show(Button::PickMap, Ok("Customs".to_string()));
    app.show(Button::PickMap, Err(EmptySelectionError));
    assert_eq!(app.map, "Customs");
    assert_eq!(app.error, Some("Cannot randomize empty list".to_string()));
}
