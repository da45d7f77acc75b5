//! The two small mode enumerations that steer the whole application.

use vstd::prelude::*;

verus! {

/// How a query is interpreted, and with it which family of pages is fetched.
#[derive(Debug, Clone, Copy, PartialEq, Eq, Hash, Structural)]
pub enum SearchMode {
    /// Free-text search.
    Normal,
    /// A numbered issue of the digest.
    Volume,
    /// All projects of one category, page by page.
    Category,
}

/// Which part of the screen owns the keyboard.
#[derive(Debug, Clone, Copy, PartialEq, Eq, Structural)]
pub enum AppMode {
    /// The query box.
    Search,
    /// The result table.
    View,
    /// A message window.
    Popup,
    /// The detail page of one project.
    Detail,
}

/// The mode that a query's first character selects.
pub open spec fn mode_of_sigil(c: char) -> SearchMode {
    if c == '#' {
        SearchMode::Volume
    } else if c == '$' {
        SearchMode::Category
    } else {
        SearchMode::Normal
    }
}

/// Determines the search mode from the first character of a query.
pub fn sigil_mode(c: char) -> (mode: SearchMode)
    ensures
        mode == mode_of_sigil(c),
{
    if c == '#' {
        SearchMode::Volume
    } else if c == '$' {
        SearchMode::Category
    } else {
        SearchMode::Normal
    }
}

} // verus!
