//! What the window shows, and what a click on one of its buttons does to it.

use crate::catalog::RandomizeList;
use crate::errors::{EmptySelectionError, FetchError};
use crate::maps::{map_names, maps};
use crate::weapons::{anchor_selector, get_weapons, selected_markup, weapons_of};
use vstd::prelude::*;

verus! {

/// The two lists to pick from.
#[derive(Debug, Default)]
pub struct Content {
    pub maps: RandomizeList,
    pub weapons: RandomizeList,
}

/// The two buttons of the window.
#[derive(Debug, Clone, Copy, PartialEq, Eq, Structural)]
pub enum Button {
    PickMap,
    PickWeapon,
}

/// The state behind the window: the lists, the two names on show, and the
/// error that the window reports instead, if there is one.
#[derive(Debug)]
pub struct App {
    pub content: Content,
    pub map: String,
    pub weapon: String,
    pub error: Option<String>,
}

/// The text of an optional string.
pub open spec fn text_of(s: Option<String>) -> Option<Seq<char>> {
    match s {
        Some(s) => Some(s@),
        None => None,
    }
}

impl Default for App {
    /// Empty lists, nothing on show, no error.
    fn default() -> (app: App)
        ensures
            app.content.maps@.len() == 0,
            app.content.weapons@.len() == 0,
            app.map@.len() == 0,
            app.weapon@.len() == 0,
            app.error is None,
    {
        App {
            content: Content { maps: RandomizeList::default(), weapons: RandomizeList::default() },
            map: String::new(),
            weapon: String::new(),
            error: None,
        }
    }
}

impl App {
    /// The list that a button picks from.
    pub open spec fn names(&self, button: Button) -> Seq<Seq<char>> {
        match button {
            Button::PickMap => self.content.maps@,
            Button::PickWeapon => self.content.weapons@,
        }
    }

    /// The name on show beside a button.
    pub open spec fn shown(&self, button: Button) -> Seq<char> {
        match button {
            Button::PickMap => self.map@,
            Button::PickWeapon => self.weapon@,
        }
    }

    /// The state at the start, from the text of the wiki's page: the maps, the
    /// weapons of the page, nothing on show and no error. Fails as the making
    /// of the list of weapons fails.
    pub fn new(page: &str) -> (r: Result<App, FetchError>)
        ensures
            match r {
                Ok(app) => {
                    &&& weapons_of(selected_markup(page@, anchor_selector())) == Ok::<
                        Seq<Seq<char>>,
                        FetchError,
                    >(app.content.weapons@)
                    &&& app.content.maps@ == map_names()
                    &&& app.map@.len() == 0
                    &&& app.weapon@.len() == 0
                    &&& app.error is None
                },
                Err(e) => weapons_of(selected_markup(page@, anchor_selector())) == Err::<
                    Seq<Seq<char>>,
                    FetchError,
                >(e),
            },
    {
        let weapons = match get_weapons(page) {
            Ok(list) => list,
            Err(e) => {
                return Err(e);
            },
        };
        let content = Content { maps: maps(), weapons };
        Ok(App { content, map: String::new(), weapon: String::new(), error: None })
    }

    /// The state of a window that has only an error to report: empty lists,
    /// nothing on show.
    pub fn failed(message: String) -> (app: App)
        ensures
            app.content.maps@.len() == 0,
            app.content.weapons@.len() == 0,
            app.map@.len() == 0,
            app.weapon@.len() == 0,
            text_of(app.error) == Some(message@),
    {
        let mut app = App::default();
        app.error = Some(message);
        app
    }

    /// Puts the outcome of a pick on show: a name beside its button, or the
    /// message of the error in place of the window's contents. Nothing else
    /// changes.
    pub fn show(&mut self, button: Button, pick: Result<String, EmptySelectionError>)
        ensures
            final(self).content == old(self).content,
            match pick {
                Ok(name) => {
                    &&& final(self).shown(button) == name@
                    &&& final(self).error == old(self).error
                },
                Err(_) => {
                    &&& final(self).shown(button) == old(self).shown(button)
                    &&& text_of(final(self).error) == Some(EmptySelectionError::text())
                },
            },
            button == Button::PickMap ==> final(self).weapon == old(self).weapon,
            button == Button::PickWeapon ==> final(self).map == old(self).map,
    {
        match pick {
            Ok(name) => match button {
                Button::PickMap => {
                    self.map = name;
                },
                Button::PickWeapon => {
                    self.weapon = name;
                },
            },
            Err(e) => {
                self.error = Some(e.message());
            },
        }
    }

    /// A click on a button: picks from the button's list at random and puts
    /// the outcome on show. With names in the list, one of them comes on show
    /// and the error stays as it was; with an empty list, the error is set and
    /// what is on show stays.
    pub fn click(&mut self, button: Button)
        ensures
            final(self).content == old(self).content,
            old(self).names(button).len() > 0 ==> {
                &&& old(self).names(button).contains(final(self).shown(button))
                &&& final(self).error == old(self).error
            },
            old(self).names(button).len() == 0 ==> {
                &&& final(self).shown(button) == old(self).shown(button)
                &&& text_of(final(self).error) == Some(EmptySelectionError::text())
            },
            button == Button::PickMap ==> final(self).weapon == old(self).weapon,
            button == Button::PickWeapon ==> final(self).map == old(self).map,
    {
        let pick = match button {
            Button::PickMap => self.content.maps.random(),
            Button::PickWeapon => self.content.weapons.random(),
        };
        self.show(button, pick);
    }
}

} // verus!
