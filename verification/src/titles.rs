//! From the markup of the selected anchors to the list of weapon titles.

use crate::text::{
    find_first, find_last, first_occurrence, is_first_occurrence, is_last_occurrence,
    last_occurrence, lemma_first_occurrence_is, lemma_last_occurrence_is, lemma_no_occurrence,
    occurs_at, replace_all, replaced,
};
use vstd::prelude::*;
use vstd::string::*;

verus! {

/// What stands before the value of a title attribute.
pub open spec fn title_marker() -> Seq<char> {
    "title=\""@
}

/// The double quote that ends an attribute's value.
pub open spec fn quote() -> Seq<char> {
    "\""@
}

/// The entity that a serialised attribute value holds for a double quote.
pub open spec fn quote_entity() -> Seq<char> {
    "&quot;"@
}

/// What a title shows in place of that entity.
pub open spec fn apostrophe() -> Seq<char> {
    "'"@
}

/// The title at which the list of weapons ends: neither it nor anything after
/// it is kept.
pub open spec fn sentinel() -> Seq<char> {
    "NSV 'Utyos'"@
}

/// The texts of a list of strings.
pub open spec fn texts(v: Seq<String>) -> Seq<Seq<char>> {
    Seq::new(v.len(), |i: int| v[i]@)
}

/// The value of the title attribute as the markup holds it: what follows the
/// last title marker, up to the next double quote. Empty where the marker or
/// the quote after it is missing.
pub open spec fn attribute_value(markup: Seq<char>) -> Seq<char> {
    match last_occurrence(markup, title_marker()) {
        Some(at) => {
            let rest = markup.skip(at + title_marker().len());
            match first_occurrence(rest, quote()) {
                Some(end) => rest.take(end),
                None => Seq::empty(),
            }
        },
        None => Seq::empty(),
    }
}

/// The title that an anchor's markup gives: its attribute value with each
/// quote entity turned into an apostrophe.
pub open spec fn title_of(markup: Seq<char>) -> Seq<char> {
    replaced(attribute_value(markup), quote_entity(), apostrophe())
}

/// The titles of a list of anchors, one for each, in their order.
pub open spec fn titles_of(markup: Seq<Seq<char>>) -> Seq<Seq<char>> {
    Seq::new(markup.len(), |i: int| title_of(markup[i]))
}

/// Every title is the empty string (true of an empty list).
pub open spec fn all_empty(titles: Seq<Seq<char>>) -> bool {
    forall|i: int| 0 <= i < titles.len() ==> (#[trigger] titles[i]).len() == 0
}

/// `k` is where the list is cut: the place of the first title equal to `at`,
/// or the length of the list where there is none.
pub open spec fn is_cut_point(titles: Seq<Seq<char>>, at: Seq<char>, k: int) -> bool {
    &&& 0 <= k <= titles.len()
    &&& forall|i: int| 0 <= i < k ==> #[trigger] titles[i] != at
    &&& k < titles.len() ==> titles[k] == at
}

/// The titles that stand before the first one equal to `at`; all of them where
/// none is equal to it.
pub open spec fn before(titles: Seq<Seq<char>>, at: Seq<char>) -> Seq<Seq<char>> {
    titles.take(choose|k: int| is_cut_point(titles, at, k))
}

/// A list has one cut point only, so `before` ends there.
pub proof fn lemma_before_is(titles: Seq<Seq<char>>, at: Seq<char>, k: int)
    requires
        is_cut_point(titles, at, k),
    ensures
        before(titles, at) == titles.take(k),
{
    let c = choose|c: int| is_cut_point(titles, at, c);
    if c < k {
        assert(titles[c] != at);
    }
    if k < c {
        assert(titles[k] != at);
    }
}

/// The markup holds a well-formed title attribute with the value `value`: its
/// last title marker stands at `at`, and `value`, which holds no double quote,
/// follows it and is closed by a double quote.
pub open spec fn holds_title(markup: Seq<char>, value: Seq<char>, at: int) -> bool {
    &&& is_last_occurrence(markup, title_marker(), at)
    &&& occurs_at(markup, value + quote(), at + title_marker().len())
    &&& forall|k: int| !#[trigger] occurs_at(value, quote(), k)
}

/// The title of markup with a well-formed title attribute is the attribute's
/// value, each quote entity in it turned into an apostrophe.
pub proof fn lemma_title_of_well_formed(markup: Seq<char>, value: Seq<char>, at: int)
    requires
        holds_title(markup, value, at),
    ensures
        attribute_value(markup) == value,
        title_of(markup) == replaced(value, quote_entity(), apostrophe()),
{
    reveal_strlit("\"");
    let start = at + title_marker().len();
    let rest = markup.skip(start);
    let n = value.len() as int;
    lemma_last_occurrence_is(markup, title_marker(), at);
    let closed = value + quote();
    assert(markup.subrange(start, start + closed.len()) == closed);
    assert forall|j: int| 0 <= j < closed.len() implies rest[j] == closed[j] by {
        assert(markup.subrange(start, start + closed.len())[j] == markup[start + j]);
    }
    assert(rest.subrange(n, n + 1) =~= quote()) by {
        assert(rest[n] == closed[n]);
    }
    assert forall|j: int| j < n implies !#[trigger] occurs_at(rest, quote(), j) by {
        if occurs_at(rest, quote(), j) {
            assert(rest.subrange(j, j + 1)[0] == rest[j]);
            assert(rest[j] == closed[j]);
            assert(value.subrange(j, j + 1) =~= quote());
            assert(occurs_at(value, quote(), j));
        }
    }
    assert(is_first_occurrence(rest, quote(), n));
    lemma_first_occurrence_is(rest, quote(), n);
    assert(rest.take(n) =~= value) by {
        assert forall|j: int| 0 <= j < n implies rest[j] == value[j] by {
            assert(rest[j] == closed[j]);
        }
    }
}

/// Markup without a title marker gives the empty title.
pub proof fn lemma_title_without_marker(markup: Seq<char>)
    requires
        forall|j: int| !#[trigger] occurs_at(markup, title_marker(), j),
    ensures
        title_of(markup) == Seq::<char>::empty(),
{
    lemma_no_occurrence(markup, title_marker());
}

/// Anchors that each hold a well-formed title attribute give as many titles,
/// each the value of its anchor with the quote entities turned.
pub proof fn lemma_titles_of_well_formed(
    markup: Seq<Seq<char>>,
    values: Seq<Seq<char>>,
    places: Seq<int>,
)
    requires
        markup.len() == values.len(),
        markup.len() == places.len(),
        forall|i: int| 0 <= i < markup.len() ==> holds_title(markup[i], values[i], places[i]),
    ensures
        titles_of(markup).len() == markup.len(),
        forall|i: int|
            0 <= i < markup.len() ==> #[trigger] titles_of(markup)[i] == replaced(
                values[i],
                quote_entity(),
                apostrophe(),
            ),
{
    assert forall|i: int| 0 <= i < markup.len() implies #[trigger] titles_of(markup)[i]
        == replaced(values[i], quote_entity(), apostrophe()) by {
        lemma_title_of_well_formed(markup[i], values[i], places[i]);
    }
}

/// A list in which no title equals `at` is kept whole.
pub proof fn lemma_before_without(titles: Seq<Seq<char>>, at: Seq<char>)
    requires
        forall|i: int| 0 <= i < titles.len() ==> #[trigger] titles[i] != at,
    ensures
        before(titles, at) == titles,
{
    lemma_before_is(titles, at, titles.len() as int);
    assert(titles.take(titles.len() as int) =~= titles);
}

/// Extracts the title from the markup of one anchor.
pub fn extract_title(markup: &str) -> (title: String)
    ensures
        title@ == title_of(markup@),
{
    proof {
        reveal_strlit("&quot;");
    }
    let marker = "title=\"";
    match find_last(markup, marker) {
        None => String::new(),
        Some(at) => {
            let n: usize = markup.unicode_len();
            let start: usize = at + marker.unicode_len();
            let rest = markup.substring_char(start, n);
            assert(rest@ =~= markup@.skip(start as int));
            match find_first(rest, "\"") {
                None => String::new(),
                Some(end) => {
                    let value = rest.substring_char(0, end);
                    assert(value@ =~= rest@.take(end as int));
                    replace_all(value, "&quot;", "'")
                },
            }
        },
    }
}

/// Extracts the title of each anchor, in order.
pub fn extract_titles(markup: &Vec<String>) -> (titles: Vec<String>)
    ensures
        texts(titles@) == titles_of(texts(markup@)),
{
    let mut titles: Vec<String> = Vec::new();
    let mut i: usize = 0;
    while i < markup.len()
        invariant
            i <= markup.len(),
            titles.len() == i,
            forall|k: int| 0 <= k < i ==> (#[trigger] titles[k])@ == title_of(markup[k]@),
        decreases markup.len() - i,
    {
        titles.push(extract_title(markup[i].as_str()));
        i += 1;
    }
    assert(texts(titles@) =~= titles_of(texts(markup@)));
    titles
}

/// Tells whether every title is empty.
pub fn every_title_empty(titles: &Vec<String>) -> (r: bool)
    ensures
        r == all_empty(texts(titles@)),
{
    let mut i: usize = 0;
    while i < titles.len()
        invariant
            i <= titles.len(),
            forall|k: int| 0 <= k < i ==> (#[trigger] texts(titles@)[k]).len() == 0,
        decreases titles.len() - i,
    {
        if !titles[i].as_str().is_empty() {
            assert(texts(titles@)[i as int].len() != 0);
            return false;
        }
        i += 1;
    }
    true
}

/// Drops the sentinel title and everything after it.
pub fn cut_off(titles: Vec<String>) -> (kept: Vec<String>)
    ensures
        texts(kept@) == before(texts(titles@), sentinel()),
{
    let cut_off_after = String::from_str("NSV 'Utyos'");
    let mut kept = titles;
    let mut i: usize = 0;
    while i < kept.len() && !(kept[i] == cut_off_after)
        invariant
            i <= kept.len(),
            kept == titles,
            cut_off_after@ == sentinel(),
            forall|k: int| 0 <= k < i ==> #[trigger] texts(titles@)[k] != sentinel(),
        decreases kept.len() - i,
    {
        i += 1;
    }
    proof {
        assert(is_cut_point(texts(titles@), sentinel(), i as int));
        lemma_before_is(texts(titles@), sentinel(), i as int);
    }
    kept.truncate(i);
    assert(texts(kept@) =~= texts(titles@).take(i as int));
    kept
}

} // verus!
