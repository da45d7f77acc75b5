//! The built-in colour themes and the colour of each category.

use crate::category::{is_word, lowercase, lowercased, Category};
use crate::text::to_chars;
use vstd::prelude::*;
use vstd::string::StringExecFns;

verus! {

/// A colour of the terminal.
#[derive(Debug, Clone, Copy, PartialEq, Eq, Structural)]
pub enum Color {
    Green,
    White,
    Rgb(u8, u8, u8),
}

/// The foreground and background colour of a piece of the screen; an unset colour is the
/// terminal's own.
#[derive(Debug, Clone, Copy, PartialEq, Eq, Structural)]
pub struct Style {
    pub fg: Option<Color>,
    pub bg: Option<Color>,
}

/// The styles of a theme.
#[derive(Debug, Clone, Copy, PartialEq, Eq, Structural)]
pub struct ThemeStyle {
    pub background: Style,
    pub title: Style,
    pub tips: Style,
    pub selected: Style,
    pub text: Style,
    pub key: Style,
}

/// A built-in theme.
#[derive(Debug, Clone, Copy, Hash, Eq, PartialEq, Structural)]
pub enum Theme {
    /// Light, one text colour.
    LightDefault,
    /// Light, one colour for each category.
    LightColorful,
    /// Dark, one text colour.
    DarkDefault,
    /// Dark, one colour for each category.
    DarkColorful,
    /// High contrast.
    HighContrast,
}

/// A style with a foreground colour only.
pub open spec fn fg(r: u8, g: u8, b: u8) -> Style {
    Style { fg: Some(Color::Rgb(r, g, b)), bg: None }
}

/// A style with a background colour only.
pub open spec fn bg(r: u8, g: u8, b: u8) -> Style {
    Style { fg: None, bg: Some(Color::Rgb(r, g, b)) }
}

/// A style with a foreground colour only.
pub fn with_fg(r: u8, g: u8, b: u8) -> (s: Style)
    ensures
        s == fg(r, g, b),
{
    Style { fg: Some(Color::Rgb(r, g, b)), bg: None }
}

/// A style with a background colour only.
pub fn with_bg(r: u8, g: u8, b: u8) -> (s: Style)
    ensures
        s == bg(r, g, b),
{
    Style { fg: None, bg: Some(Color::Rgb(r, g, b)) }
}

/// The styles of the light themes.
pub open spec fn light_style() -> ThemeStyle {
    ThemeStyle {
        background: bg(242, 242, 242),
        title: fg(0, 46, 186),
        tips: fg(100, 100, 100),
        selected: bg(252, 250, 236),
        text: fg(8, 8, 8),
        key: fg(255, 0, 0),
    }
}

/// The styles of the dark themes.
pub open spec fn dark_style() -> ThemeStyle {
    ThemeStyle {
        background: bg(43, 43, 43),
        title: fg(196, 107, 28),
        tips: fg(95, 99, 102),
        selected: bg(50, 50, 50),
        text: fg(166, 183, 200),
        key: Style { fg: Some(Color::Green), bg: None },
    }
}

/// The styles of the high-contrast theme.
pub open spec fn contrast_style() -> ThemeStyle {
    ThemeStyle {
        background: bg(19, 19, 20),
        title: fg(0, 226, 240),
        tips: fg(104, 197, 234),
        selected: bg(5, 0, 107),
        text: fg(255, 255, 255),
        key: fg(252, 140, 255),
    }
}

/// The colour of a category in the colourful themes, for the categories that have one.
pub open spec fn category_colour(category: Category) -> Option<Style> {
    match category {
        Category::C => Some(fg(85, 85, 85)),
        Category::Cpp => Some(fg(243, 75, 125)),
        Category::Csharp => Some(fg(23, 134, 1)),
        Category::Css => Some(fg(86, 62, 124)),
        Category::Java => Some(fg(175, 114, 25)),
        Category::Javascript => Some(fg(240, 224, 90)),
        Category::Go => Some(fg(1, 173, 216)),
        Category::Rust => Some(fg(221, 163, 132)),
        Category::Python => Some(fg(53, 114, 165)),
        Category::Php => Some(fg(79, 93, 149)),
        Category::ObjectC => Some(fg(67, 142, 255)),
        Category::Ruby => Some(fg(112, 20, 21)),
        Category::Swift => Some(fg(240, 81, 55)),
        Category::Kotlin => Some(fg(169, 123, 255)),
        _ => None,
    }
}

/// The style in which a project of a category is written: in a colourful theme the colour
/// of the category, or white where it has none; else the theme's text style.
pub open spec fn font_style(category: Category, theme_style: ThemeStyle, colorful: bool) -> Style {
    if colorful {
        match category_colour(category) {
            Some(style) => style,
            None => Style { fg: Some(Color::White), bg: None },
        }
    } else {
        theme_style.text
    }
}

/// The colour of a category in the colourful themes.
pub fn init_category_style(category: Category) -> (style: Option<Style>)
    ensures
        style == category_colour(category),
{
    match category {
        Category::C => Some(with_fg(85, 85, 85)),
        Category::Cpp => Some(with_fg(243, 75, 125)),
        Category::Csharp => Some(with_fg(23, 134, 1)),
        Category::Css => Some(with_fg(86, 62, 124)),
        Category::Java => Some(with_fg(175, 114, 25)),
        Category::Javascript => Some(with_fg(240, 224, 90)),
        Category::Go => Some(with_fg(1, 173, 216)),
        Category::Rust => Some(with_fg(221, 163, 132)),
        Category::Python => Some(with_fg(53, 114, 165)),
        Category::Php => Some(with_fg(79, 93, 149)),
        Category::ObjectC => Some(with_fg(67, 142, 255)),
        Category::Ruby => Some(with_fg(112, 20, 21)),
        Category::Swift => Some(with_fg(240, 81, 55)),
        Category::Kotlin => Some(with_fg(169, 123, 255)),
        _ => None,
    }
}

/// Chooses the style in which a project of a category is written.
pub fn choose_font_style(category: &Category, theme_style: &ThemeStyle, colorful: bool) -> (style:
    Style)
    ensures
        style == font_style(*category, *theme_style, colorful),
{
    if colorful {
        match init_category_style(*category) {
            Some(style) => style,
            None => Style { fg: Some(Color::White), bg: None },
        }
    } else {
        theme_style.text
    }
}

impl Default for Theme {
    fn default() -> (t: Theme)
        ensures
            t == Theme::DarkColorful,
    {
        Theme::DarkColorful
    }
}

/// The theme that a lower-case name stands for.
pub open spec fn named_theme(name: Seq<char>) -> Option<Theme> {
    if name == "lightdefault"@ {
        Some(Theme::LightDefault)
    } else if name == "lightcolorful"@ {
        Some(Theme::LightColorful)
    } else if name == "darkdefault"@ {
        Some(Theme::DarkDefault)
    } else if name == "darkcolorful"@ {
        Some(Theme::DarkColorful)
    } else if name == "highcontrast"@ {
        Some(Theme::HighContrast)
    } else {
        None
    }
}

impl Theme {
    /// The name of the theme.
    pub open spec fn name_text(self) -> Seq<char> {
        match self {
            Theme::LightDefault => "lightdefault"@,
            Theme::LightColorful => "lightcolorful"@,
            Theme::DarkDefault => "darkdefault"@,
            Theme::DarkColorful => "darkcolorful"@,
            Theme::HighContrast => "highcontrast"@,
        }
    }

    /// The styles of the theme.
    pub open spec fn style_spec(self) -> ThemeStyle {
        match self {
            Theme::LightDefault => light_style(),
            Theme::LightColorful => light_style(),
            Theme::DarkDefault => dark_style(),
            Theme::DarkColorful => dark_style(),
            Theme::HighContrast => contrast_style(),
        }
    }

    /// Whether the theme gives each category its own colour.
    pub open spec fn colorful_spec(self) -> bool {
        self == Theme::LightColorful || self == Theme::DarkColorful
    }

    /// The name of the theme.
    pub fn name(self) -> (s: &'static str)
        ensures
            s@ == self.name_text(),
    {
        match self {
            Theme::LightDefault => "lightdefault",
            Theme::LightColorful => "lightcolorful",
            Theme::DarkDefault => "darkdefault",
            Theme::DarkColorful => "darkcolorful",
            Theme::HighContrast => "highcontrast",
        }
    }

    /// The names of the built-in themes.
    pub fn theme_list() -> (names: Vec<&'static str>)
        ensures
            names.len() == 5,
            names[0]@ == Theme::LightDefault.name_text(),
            names[1]@ == Theme::LightColorful.name_text(),
            names[2]@ == Theme::DarkDefault.name_text(),
            names[3]@ == Theme::DarkColorful.name_text(),
            names[4]@ == Theme::HighContrast.name_text(),
    {
        let mut names: Vec<&'static str> = Vec::new();
        names.push(Theme::LightDefault.name());
        names.push(Theme::LightColorful.name());
        names.push(Theme::DarkDefault.name());
        names.push(Theme::DarkColorful.name());
        names.push(Theme::HighContrast.name());
        names
    }

    /// Looks a lower-case name up among the built-in themes.
    pub fn from_name(name: &str) -> (found: Option<Theme>)
        ensures
            found == named_theme(name@),
    {
        let v = to_chars(name);
        if is_word(&v, "lightdefault") {
            Some(Theme::LightDefault)
        } else if is_word(&v, "lightcolorful") {
            Some(Theme::LightColorful)
        } else if is_word(&v, "darkdefault") {
            Some(Theme::DarkDefault)
        } else if is_word(&v, "darkcolorful") {
            Some(Theme::DarkColorful)
        } else if is_word(&v, "highcontrast") {
            Some(Theme::HighContrast)
        } else {
            None
        }
    }

    /// Reads a theme from its name, in any letter case. An unknown name is answered with a
    /// text that quotes it in lower case.
    pub fn from_str(color_theme: &str) -> (r: Result<Theme, String>)
        ensures
            match named_theme(lowercased(color_theme@)) {
                Some(theme) => r == Ok::<Theme, String>(theme),
                None => r is Err && r->Err_0@ == "unsupport theme '"@ + lowercased(color_theme@)
                    + "'"@,
            },
    {
        let lower = lowercase(color_theme);
        match Theme::from_name(lower.as_str()) {
            Some(theme) => Ok(theme),
            None => {
                let mut text = "unsupport theme '".to_owned();
                text.append(lower.as_str());
                text.append("'");
                Err(text)
            },
        }
    }

    /// The styles of the theme.
    pub fn style(self) -> (s: ThemeStyle)
        ensures
            s == self.style_spec(),
    {
        match self {
            Theme::LightDefault | Theme::LightColorful => ThemeStyle {
                background: with_bg(242, 242, 242),
                title: with_fg(0, 46, 186),
                tips: with_fg(100, 100, 100),
                selected: with_bg(252, 250, 236),
                text: with_fg(8, 8, 8),
                key: with_fg(255, 0, 0),
            },
            Theme::DarkDefault | Theme::DarkColorful => ThemeStyle {
                background: with_bg(43, 43, 43),
                title: with_fg(196, 107, 28),
                tips: with_fg(95, 99, 102),
                selected: with_bg(50, 50, 50),
                text: with_fg(166, 183, 200),
                key: Style { fg: Some(Color::Green), bg: None },
            },
            Theme::HighContrast => ThemeStyle {
                background: with_bg(19, 19, 20),
                title: with_fg(0, 226, 240),
                tips: with_fg(104, 197, 234),
                selected: with_bg(5, 0, 107),
                text: with_fg(255, 255, 255),
                key: with_fg(252, 140, 255),
            },
        }
    }

    /// Whether the theme gives each category its own colour.
    pub fn is_colorful(self) -> (b: bool)
        ensures
            b == self.colorful_spec(),
    {
        match self {
            Theme::LightColorful | Theme::DarkColorful => true,
            _ => false,
        }
    }
}

} // verus!
