//! Engine of a terminal browser for a weekly digest of open-source projects:
//! the record types, the page readers, the fetch planning and the key handling.

pub mod app;
pub mod category;
pub mod cli;
pub mod config;
pub mod dom;
pub mod draw;
pub mod error;
pub mod events;
pub mod fetch;
pub mod mode;
pub mod parse;
pub mod pattern;
pub mod project;
pub mod rows;
pub mod text;
pub mod theme;
pub mod utils;
pub mod widget;
