//! The query box.

use crate::mode::{mode_of_sigil, sigil_mode, SearchMode};
use crate::text::{from_chars, push_char, to_chars};
use vstd::prelude::*;

verus! {

/// The query box as a part of the screen.
pub struct Input {}

/// What the user has typed, and how it is to be read.
#[derive(Debug)]
pub struct InputState {
    /// The text in the box.
    pub input: String,
    /// Whether the box has the keyboard.
    pub active: bool,
    /// The mode that the first character of the query selected.
    pub mode: SearchMode,
}

/// The columns that a text takes on a terminal.
pub uninterp spec fn display_width(s: Seq<char>) -> nat;

/// The columns that a text takes on a terminal.
///
/// Stands for `UnicodeWidthStr::width`, which measures the displayed width of the text by
/// the tables of Unicode Standard Annex 11, ambiguous characters as one column.
#[verifier::external_body]
pub(crate) fn columns_of(s: &str) -> (w: usize)
    ensures
        w == display_width(s@),
{
    unicode_width::UnicodeWidthStr::width(s)
}

impl Default for InputState {
    fn default() -> (s: InputState)
        ensures
            s.input@ == Seq::<char>::empty(),
            s.active,
            s.mode == SearchMode::Normal,
    {
        InputState { input: String::new(), active: true, mode: SearchMode::Normal }
    }
}

impl InputState {
    /// Gives the box the keyboard.
    pub fn active(&mut self)
        ensures
            final(self).active,
            final(self).input@ == old(self).input@,
            final(self).mode == old(self).mode,
    {
        self.active = true;
    }

    /// Takes the keyboard from the box.
    pub fn deactive(&mut self)
        ensures
            !final(self).active,
            final(self).input@ == old(self).input@,
            final(self).mode == old(self).mode,
    {
        self.active = false;
    }

    /// The columns that the text takes, as a 16-bit number; higher bits are cut off.
    pub fn width(&self) -> (w: u16)
        ensures
            w == display_width(self.input@) % 0x10000,
    {
        let columns: usize = columns_of(self.input.as_str());
        (columns % 0x10000) as u16
    }

    /// Whether nothing has been typed.
    pub fn is_empty(&self) -> (b: bool)
        ensures
            b == (self.input@.len() == 0),
    {
        self.input.as_str().is_empty()
    }

    /// Empties the box and returns what was in it. The mode stays.
    pub fn clear(&mut self) -> (content: String)
        ensures
            content@ == old(self).input@,
            final(self).input@ == Seq::<char>::empty(),
            final(self).mode == old(self).mode,
            final(self).active == old(self).active,
    {
        let content = self.input.clone();
        self.input = String::new();
        content
    }

    /// Takes one typed character. The first character of a query selects the mode.
    pub fn handle_char(&mut self, char: char) -> (mode: SearchMode)
        ensures
            final(self).input@ == old(self).input@.push(char),
            final(self).mode == if old(self).input@.len() == 0 {
                mode_of_sigil(char)
            } else {
                old(self).mode
            },
            mode == final(self).mode,
            final(self).active == old(self).active,
    {
        if self.is_empty() {
            self.mode = sigil_mode(char);
        }
        push_char(&mut self.input, char);
        self.mode
    }

    /// Takes the last character away, if there is one.
    pub fn handle_backspace(&mut self)
        ensures
            final(self).input@ == if old(self).input@.len() == 0 {
                old(self).input@
            } else {
                old(self).input@.drop_last()
            },
            final(self).mode == old(self).mode,
            final(self).active == old(self).active,
    {
        let v = to_chars(self.input.as_str());
        if v.len() > 0 {
            self.input = from_chars(&v, 0, v.len() - 1);
        }
    }
}

} // verus!
