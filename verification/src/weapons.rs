//! The list of weapons that the wiki's page gives.

use crate::catalog::RandomizeList;
use crate::errors::FetchError;
use crate::titles::{
    all_empty, before, cut_off, every_title_empty, extract_titles, sentinel, texts, titles_of,
};
use vstd::prelude::*;

verus! {

/// What `scraper` selects in a document: the serialised markup of each element
/// of the parsed `document` that matches the CSS selector `selector`, in the
/// order of the document; nothing where `scraper` refuses the selector.
pub uninterp spec fn selected_markup(document: Seq<char>, selector: Seq<char>) -> Option<
    Seq<Seq<char>>,
>;

/// `scraper::Selector::parse` on `selector`, `scraper::Html::parse_document`
/// on `document`, `scraper::Html::select` with the two, and
/// `scraper::ElementRef::html` on each element that comes out. Claimed: the
/// result is a function of the two texts, named `selected_markup`, and is
/// `None` exactly where the selector was refused. What the markup holds is not
/// stated here.
#[verifier::external_body]
fn select_markup(document: &str, selector: &str) -> (r: Option<Vec<String>>)
    ensures
        markup_texts(r) == selected_markup(document@, selector@),
{
    let selector = scraper::Selector::parse(selector).ok()?;
    let html = scraper::Html::parse_document(document);
    let mut markup = Vec::new();
    for element in html.select(&selector) {
        markup.push(element.html());
    }
    Some(markup)
}

/// The selector of the anchors that link to a weapon's article.
pub open spec fn anchor_selector() -> Seq<char> {
    "a.mw-redirect"@
}

/// The texts of the selected markup, where there is any.
pub open spec fn markup_texts(markup: Option<Vec<String>>) -> Option<Seq<Seq<char>>> {
    match markup {
        Some(m) => Some(texts(m@)),
        None => None,
    }
}

/// The names of a list that was made, or the error.
pub open spec fn names_of(r: Result<RandomizeList, FetchError>) -> Result<
    Seq<Seq<char>>,
    FetchError,
> {
    match r {
        Ok(list) => Ok(list@),
        Err(e) => Err(e),
    }
}

/// The list of weapons that the selected markup gives. Without a selection the
/// selector was at fault. Where every title is empty, and so where no anchor
/// was selected, there are no weapons. Else the list holds the titles that
/// stand before the sentinel, empty ones among them.
pub open spec fn weapons_of(markup: Option<Seq<Seq<char>>>) -> Result<Seq<Seq<char>>, FetchError> {
    match markup {
        None => Err(FetchError::Selector),
        Some(m) => if all_empty(titles_of(m)) {
            Err(FetchError::NoWeapons)
        } else {
            Ok(before(titles_of(m), sentinel()))
        },
    }
}

/// Where every title that the anchors give is empty, no list is made: the
/// outcome is the error whose message is that the weapons could not be had.
pub proof fn lemma_all_empty_fails(markup: Seq<Seq<char>>)
    requires
        all_empty(titles_of(markup)),
    ensures
        weapons_of(Some(markup)) == Err::<Seq<Seq<char>>, FetchError>(FetchError::NoWeapons),
        FetchError::NoWeapons.text() == "Failed to get weapons"@,
{
}

/// Makes the list of weapons from the markup of the selected anchors.
pub fn weapons_from_markup(markup: Option<Vec<String>>) -> (r: Result<RandomizeList, FetchError>)
    ensures
        names_of(r) == weapons_of(markup_texts(markup)),
{
    match markup {
        None => Err(FetchError::Selector),
        Some(m) => {
            let weapons = extract_titles(&m);
            if every_title_empty(&weapons) {
                return Err(FetchError::NoWeapons);
            }
            Ok(RandomizeList(cut_off(weapons)))
        },
    }
}

/// Makes the list of weapons from the text of the wiki's page on weapons.
pub fn get_weapons(page: &str) -> (r: Result<RandomizeList, FetchError>)
    ensures
        names_of(r) == weapons_of(selected_markup(page@, anchor_selector())),
{
    weapons_from_markup(select_markup(page, "a.mw-redirect"))
}

} // verus!
