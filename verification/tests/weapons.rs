use tarkov_activity::errors::FetchError;
use tarkov_activity::weapons::{get_weapons, weapons_from_markup};

fn strings(v: &[&str]) -> Vec<String> {
    v.iter().map(|s| s.to_string()).collect()
}

fn page(body: &str) -> String {
    format!("<!DOCTYPE html><html><head><title>Weapons</title></head><body>{}</body></html>", body)
}

#[test]
fn weapons_of_a_page_in_document_order() {
    let html = page(
        "<table><tr><td><a href=\"/wiki/AK-74\" class=\"mw-redirect\" title=\"AK-74\">AK-74</a></td>\
         <td><a href=\"/wiki/M4A1\" class=\"mw-redirect\" title=\"M4A1\">M4A1</a></td></tr></table>\
         <p><a class=\"mw-redirect\" title=\"PKM\" href=\"/wiki/PKM\">PKM</a></p>",
    );
    let weapons = get_weapons(&html).unwrap();
    assert_eq!(weapons.0, strings(&["AK-74", "M4A1", "PKM"]));
}

#[test]
fn only_redirect_anchors_count() {
    let html = page(
        "<a class=\"external\" title=\"Forum\">f</a>\
         <span class=\"mw-redirect\" title=\"Span\">s</span>\
         <a class=\"image mw-redirect\" title=\"SVD\">SVD</a>\
         <a title=\"Plain\">p</a>",
    );
    let weapons = get_weapons(&html).unwrap();
    assert_eq!(weapons.0, strings(&["SVD"]));
}

#[test]
fn weapons_stop_before_the_sentinel() {
    let html = page(
        "<a class=\"mw-redirect\" title=\"AK-74\">a</a>\
         <a class=\"mw-redirect\" title=\"M4A1\">b</a>\
         <a class=\"mw-redirect\" title='NSV \"Utyos\"'>c</a>\
         <a class=\"mw-redirect\" title=\"PKM\">d</a>",
    );
    let weapons = get_weapons(&html).unwrap();
    assert_eq!(weapons.0, strings(&["AK-74", "M4A1"]));
}

#[test]
fn an_apostrophe_in_the_page_is_not_the_sentinel() {
    let html = page(
        "<a class=\"mw-redirect\" title=\"AK-74\">a</a>\
         <a class=\"mw-redirect\" title=\"NSV 'Utyos'\">c</a>\
         <a class=\"mw-redirect\" title=\"PKM\">d</a>",
    );
    let weapons = get_weapons(&html).unwrap();
    assert_eq!(weapons.0, strings(&["AK-74"]));
}

#[test]
fn quotes_in_a_title_become_apostrophes() {
    let html = page("<a class=\"mw-redirect\" title='RPK \"Hand\" 16'>r</a>");
    let weapons = get_weapons(&html).unwrap();
    assert_eq!(weapons.0, strings(&["RPK 'Hand' 16"]));
}

#[test]
fn an_anchor_without_title_gives_an_empty_entry() {
    let html = page(
        "<a class=\"mw-redirect\" title=\"AK-74\">a</a>\
         <a class=\"mw-redirect\" href=\"/wiki/X\">x</a>\
         <a class=\"mw-redirect\" title=\"PKM\">d</a>",
    );
    let weapons = get_weapons(&html).unwrap();
    assert_eq!(weapons.0, strings(&["AK-74", "", "PKM"]));
}

#[test]
fn a_page_with_empty_titles_only_fails() {
    let html = page(
        "<a class=\"mw-redirect\" href=\"/wiki/X\">x</a>\
         <a class=\"mw-redirect\" title=\"\">y</a>",
    );
    assert_eq!(get_weapons(&html).err(), Some(FetchError::NoWeapons));
}

#[test]
fn a_page_without_anchors_fails() {
    assert_eq!(get_weapons(&page("<p>nothing</p>")).err(), Some(FetchError::NoWeapons));
    assert_eq!(get_weapons("").err(), Some(FetchError::NoWeapons));
}

#[test]
fn a_page_that_starts_with_the_sentinel_gives_an_empty_list() {
    let html = page(
        "<a class=\"mw-redirect\" title=\"NSV 'Utyos'\">c</a>\
         <a class=\"mw-redirect\" title=\"PKM\">d</a>",
    );
    let weapons = get_weapons(&html).unwrap();
    assert!(weapons.0.is_empty());
}

#[test]
fn weapons_from_markup_without_a_selection_blames_the_selector() {
    assert_eq!(weapons_from_markup(None).err(), Some(FetchError::Selector));
}

#[test]
fn weapons_from_markup_extracts_and_cuts() {
    let markup = strings(&[
        "<a class=\"mw-redirect\" title=\"AK-74\">a</a>",
        "<a class=\"mw-redirect\" title=\"NSV &quot;Utyos&quot;\">c</a>",
        "<a class=\"mw-redirect\" title=\"PKM\">d</a>",
    ]);
    assert_eq!(weapons_from_markup(Some(markup)).unwrap().0, strings(&["AK-74"]));
    assert_eq!(weapons_from_markup(Some(Vec::new())).err(), Some(FetchError::NoWeapons));
    assert_eq!(
        weapons_from_markup(Some(strings(&["<a>x</a>", "<a>y</a>"]))).err(),
        Some(FetchError::NoWeapons)
    );
}
