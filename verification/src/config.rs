//! The settings of one run.

use crate::cli::Args;
use crate::theme::Theme;
use vstd::prelude::*;

verus! {

/// The settings of one run.
#[derive(Debug, Clone)]
pub struct Config {
    /// The directory that holds the marker file of the first run.
    pub config_path: String,
    /// Whether the help text is shown at start.
    pub show_help: bool,
    /// The colour theme.
    pub color_theme: Theme,
    /// Whether only the list of themes is shown.
    pub show_themes: bool,
}

impl Default for Config {
    fn default() -> (c: Config)
        ensures
            c.config_path@ == Seq::<char>::empty(),
            !c.show_help,
            c.color_theme == Theme::DarkColorful,
            !c.show_themes,
    {
        Config {
            config_path: String::new(),
            show_help: false,
            color_theme: Theme::DarkColorful,
            show_themes: false,
        }
    }
}

impl Config {
    /// The settings that the command line asks for. Without a path on the command line,
    /// the user's home directory holds the marker file.
    pub fn from(args: Args, home: String) -> (c: Config)
        ensures
            c.config_path@ == match args.path {
                Some(path) => path@,
                None => home@,
            },
            c.show_help == args.show_help,
            c.color_theme == args.color_theme,
            c.show_themes == args.show_themes,
    {
        let config_path = match args.path {
            Some(path) => path,
            None => home,
        };
        Config {
            config_path,
            show_help: args.show_help,
            color_theme: args.color_theme,
            show_themes: args.show_themes,
        }
    }
}

} // verus!
