//! The state behind each part of the screen.

pub mod content;
pub mod input;
pub mod popup;
pub mod projectdetail;
pub mod statusline;

pub use content::{Content, ContentState};
pub use input::{Input, InputState};
pub use popup::{Popup, PopupState};
pub use statusline::{StatusLine, StatusLineState};
