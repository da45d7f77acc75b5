//! The message window.

use crate::events::Message;
use vstd::prelude::*;

verus! {

/// The message window as a part of the screen.
pub struct Popup {}

/// The message that the window shows.
#[derive(Debug)]
pub struct PopupState {
    pub msg: Message,
}

impl Default for PopupState {
    fn default() -> (s: PopupState)
        ensures
            s.msg@ == crate::events::MessageView::Error(Seq::<char>::empty()),
    {
        PopupState { msg: Message::Error(String::new()) }
    }
}

} // verus!
