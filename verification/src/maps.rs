//! The maps, a fixed list.

use crate::catalog::{is_pick, RandomizeList};
use crate::errors::EmptySelectionError;
use vstd::prelude::*;
use vstd::string::*;

verus! {

/// The names of the maps, in the order of the list.
pub open spec fn map_names() -> Seq<Seq<char>> {
    seq![
        "Customs"@,
        "Factory"@,
        "Interchange"@,
        "Lighthouse"@,
        "Reserve"@,
        "Shoreline"@,
        "Streets of Tarkov"@,
        "The Lab"@,
        "Woods"@,
    ]
}

/// The list of the maps.
pub fn maps() -> (list: RandomizeList)
    ensures
        list@ == map_names(),
{
    let mut names: Vec<String> = Vec::new();
    names.push(String::from_str("Customs"));
    names.push(String::from_str("Factory"));
    names.push(String::from_str("Interchange"));
    names.push(String::from_str("Lighthouse"));
    names.push(String::from_str("Reserve"));
    names.push(String::from_str("Shoreline"));
    names.push(String::from_str("Streets of Tarkov"));
    names.push(String::from_str("The Lab"));
    names.push(String::from_str("Woods"));
    let list = RandomizeList(names);
    assert(list@ =~= map_names());
    list
}

/// A pick from the list of the maps never fails, and gives one of the maps.
pub proof fn lemma_map_pick_succeeds(r: Result<String, EmptySelectionError>)
    requires
        is_pick(map_names(), r),
    ensures
        r is Ok,
        map_names().contains(r->Ok_0@),
{
    assert(map_names().len() == 9);
}

} // verus!
