//! The status line: the page or issue on show and the current search mode.

use crate::mode::SearchMode;
use crate::text::{after_first, number_of, parse_number, remainder, to_chars};
use vstd::prelude::*;

verus! {

/// The status line as a part of the screen.
pub struct StatusLine {}

/// The page or issue number on show and the mode it belongs to.
#[derive(Debug)]
pub struct StatusLineState {
    /// The current search mode.
    pub mode: SearchMode,
    /// The page or issue number on show.
    pub page_no: usize,
}

/// A page number held at 1 or above.
pub open spec fn at_least_one(page_no: nat) -> nat {
    if page_no < 1 {
        1
    } else {
        page_no
    }
}

/// An issue number held between 1 and the number of the newest issue. Where there is no
/// issue, so that both bounds cannot be met, it is 1.
pub open spec fn clamp_page(page_no: nat, max_volume: nat) -> nat {
    at_least_one(if page_no > max_volume {
        max_volume
    } else {
        page_no
    })
}

/// The number that the status line shows for a requested page: in issue mode an issue
/// number, in the other modes the page itself, never below 1.
pub open spec fn shown_page(mode: SearchMode, page_no: nat, max_volume: nat) -> nat {
    match mode {
        SearchMode::Volume => clamp_page(page_no, max_volume),
        _ => at_least_one(page_no),
    }
}

/// Holds an issue number between 1 and the number of the newest issue.
pub fn clamp_to_issue(page_no: usize, max_volume: usize) -> (n: usize)
    ensures
        n == clamp_page(page_no as nat, max_volume as nat),
{
    let capped = if page_no > max_volume {
        max_volume
    } else {
        page_no
    };
    if capped < 1 {
        1
    } else {
        capped
    }
}

/// The number written behind the first character of a query, if one is written there.
pub open spec fn query_number(query: Seq<char>) -> Option<nat> {
    number_of(remainder(query))
}

/// Reads the number written behind the first character of a query.
pub fn number_after_sigil(query: &str) -> (r: Option<usize>)
    ensures
        r is Some <==> query_number(query@) is Some,
        r is Some ==> r->0 == query_number(query@)->0,
{
    parse_number(&after_first(&to_chars(query)))
}

impl Default for StatusLineState {
    fn default() -> (s: StatusLineState)
        ensures
            s.mode == SearchMode::Normal,
            s.page_no == 1,
    {
        StatusLineState { mode: SearchMode::Normal, page_no: 1 }
    }
}

impl StatusLineState {
    /// The page or issue number on show.
    pub fn page_no(&self) -> (n: usize)
        ensures
            n == self.page_no,
    {
        self.page_no
    }

    /// The page number that belongs to a finished search: 1 for a text search, the requested
    /// issue for an issue search, the number on show for a category search.
    pub fn get_page_no(&self, wait_remove: String, search_mode: SearchMode) -> (n: usize)
        requires
            search_mode == SearchMode::Volume ==> query_number(wait_remove@) is Some,
        ensures
            n == match search_mode {
                SearchMode::Normal => 1,
                SearchMode::Volume => query_number(wait_remove@)->0,
                SearchMode::Category => self.page_no as nat,
            },
    {
        match search_mode {
            SearchMode::Normal => 1,
            SearchMode::Volume => match number_after_sigil(wait_remove.as_str()) {
                Some(n) => n,
                None => 1,
            },
            SearchMode::Category => self.page_no,
        }
    }

    /// Sets the number on show: in issue mode held between 1 and the number of the newest
    /// issue, in the other modes held at 1 or above.
    pub fn set_page_no(&mut self, page_no: usize, max_volume: usize)
        ensures
            final(self).page_no == shown_page(old(self).mode, page_no as nat, max_volume as nat),
            final(self).mode == old(self).mode,
    {
        self.page_no =
        match self.mode {
            SearchMode::Volume => clamp_to_issue(page_no, max_volume),
            _ => if page_no < 1 {
                1
            } else {
                page_no
            },
        };
    }

    /// Sets the search mode. A change of mode puts the number on show back to 1.
    pub fn set_mode(&mut self, mode: SearchMode)
        ensures
            final(self).mode == mode,
            final(self).page_no == if old(self).mode != mode {
                1
            } else {
                old(self).page_no
            },
    {
        if self.mode != mode {
            self.mode = mode;
            self.page_no = 1;
        }
    }
}

/// Page 0 is shown as page 1, and an issue number above the newest issue as the newest
/// issue. The number on show is never below 1 and, where there is an issue, never above the
/// newest one.
pub proof fn lemma_clamp_page(mode: SearchMode, page_no: nat, max_volume: nat)
    ensures
        shown_page(mode, 0, max_volume) == shown_page(mode, 1, max_volume),
        page_no >= max_volume ==> clamp_page(page_no, max_volume) == clamp_page(
            max_volume,
            max_volume,
        ),
        shown_page(mode, page_no, max_volume) >= 1,
        max_volume >= 1 ==> clamp_page(page_no, max_volume) <= max_volume,
        1 <= page_no <= max_volume ==> clamp_page(page_no, max_volume) == page_no,
{
}

} // verus!
