//! The errors of the library, each with the message that a window shows.

use vstd::prelude::*;
use vstd::string::*;

verus! {

/// A pick was asked of an empty list.
#[derive(Debug, Clone, Copy, PartialEq, Eq, Structural)]
pub struct EmptySelectionError;

impl EmptySelectionError {
    /// The text of the message.
    pub open spec fn text() -> Seq<char> {
        "Cannot randomize empty list"@
    }

    /// The message of the error.
    pub fn message(&self) -> (m: String)
        ensures
            m@ == Self::text(),
    {
        String::from_str("Cannot randomize empty list")
    }
}

/// Why no list of weapons could be made.
#[derive(Debug, Clone, Copy, PartialEq, Eq, Structural)]
pub enum FetchError {
    /// The page could not be had.
    Page,
    /// What came back was no text.
    Text,
    /// The selector for the anchors was refused.
    Selector,
    /// The page gave no title at all.
    NoWeapons,
}

impl FetchError {
    /// The text of the message of each error.
    pub open spec fn text(self) -> Seq<char> {
        match self {
            FetchError::Page => "Failed to get weapons page"@,
            FetchError::Text => "Failed to convert weapons page to text"@,
            FetchError::Selector => "Failed to get weapon selector"@,
            FetchError::NoWeapons => "Failed to get weapons"@,
        }
    }

    /// The message of the error.
    pub fn message(&self) -> (m: String)
        ensures
            m@ == self.text(),
    {
        match self {
            FetchError::Page => String::from_str("Failed to get weapons page"),
            FetchError::Text => String::from_str("Failed to convert weapons page to text"),
            FetchError::Selector => String::from_str("Failed to get weapon selector"),
            FetchError::NoWeapons => String::from_str("Failed to get weapons"),
        }
    }
}

} // verus!
