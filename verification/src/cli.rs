//! What the command line says.

use crate::config::Config;
use crate::theme::Theme;
use vstd::prelude::*;

verus! {

/// The arguments of the command line.
#[derive(Debug)]
pub struct Args {
    /// The directory for the marker file of the first run.
    pub path: Option<String>,
    /// Whether the help text is shown at start.
    pub show_help: bool,
    /// The colour theme.
    pub color_theme: Theme,
    /// Whether only the list of themes is shown.
    pub show_themes: bool,
}

/// The settings that the arguments of the command line ask for, given the user's home
/// directory.
pub fn parse_args(args: Args, home: String) -> (config: Config)
    ensures
        config.config_path@ == match args.path {
            Some(path) => path@,
            None => home@,
        },
        config.show_help == args.show_help,
        config.color_theme == args.color_theme,
        config.show_themes == args.show_themes,
{
    Config::from(args, home)
}

} // verus!
