//! The themes by name. The colours of a theme belong to the presentation
//! layer, which is handed the chosen theme.

use vstd::prelude::*;
use std::str::FromStr;
use crate::scan::lowercase;
use crate::scan::lowercase_text;
use crate::strings::str_eq;

verus! {

/// The sign shown next to the selected item of a list.
pub const LIST_HIGHLIGHT_SYMBOL: &'static str = "\u{bb} ";

/// The themes.
#[derive(Debug, Clone, Copy, PartialEq, Eq, Structural)]
pub enum ThemeType {
    Dark,
    Light,
    /// No colours at all.
    NoColor,
    Midnight,
    SolarizedDark,
    SolarizedLight,
    GruvboxDark,
    GruvboxLight,
    CatppuccinMocha,
    CatppuccinLatte,
    TokyoNightDark,
    TokyoNightLight,
}

/// The theme that a lowercase name stands for; an unknown name stands for
/// the dark theme.
pub open spec fn theme_named(s: Seq<char>) -> ThemeType {
    if s == "light"@ {
        ThemeType::Light
    } else if s == "midnight"@ {
        ThemeType::Midnight
    } else if s == "solarized-dark"@ || s == "solarized_dark"@ || s == "solarized"@ {
        ThemeType::SolarizedDark
    } else if s == "solarized-light"@ || s == "solarized_light"@ {
        ThemeType::SolarizedLight
    } else if s == "gruvbox-dark"@ || s == "gruvbox_dark"@ || s == "gruvbox"@ {
        ThemeType::GruvboxDark
    } else if s == "gruvbox-light"@ || s == "gruvbox_light"@ {
        ThemeType::GruvboxLight
    } else if s == "catppuccin-mocha"@ || s == "catppuccin_mocha"@ || s == "catppuccin"@ {
        ThemeType::CatppuccinMocha
    } else if s == "catppuccin-latte"@ || s == "catppuccin_latte"@ {
        ThemeType::CatppuccinLatte
    } else if s == "tokyonight-dark"@ || s == "tokyonight_dark"@ || s == "tokyonight"@ || s
        == "tokyo-night"@ || s == "tokyo_night"@ {
        ThemeType::TokyoNightDark
    } else if s == "tokyonight-light"@ || s == "tokyonight_light"@ || s == "tokyo-night-light"@ || s
        == "tokyo_night_light"@ {
        ThemeType::TokyoNightLight
    } else if s == "nocolor"@ || s == "no-color"@ || s == "no_color"@ {
        ThemeType::NoColor
    } else {
        ThemeType::Dark
    }
}

/// The name under which a theme is shown.
pub open spec fn theme_display_name(t: ThemeType) -> Seq<char> {
    match t {
        ThemeType::Dark => "Dark"@,
        ThemeType::Light => "Light"@,
        ThemeType::NoColor => "No Color"@,
        ThemeType::Midnight => "Midnight"@,
        ThemeType::SolarizedDark => "Solarized Dark"@,
        ThemeType::SolarizedLight => "Solarized Light"@,
        ThemeType::GruvboxDark => "Gruvbox Dark"@,
        ThemeType::GruvboxLight => "Gruvbox Light"@,
        ThemeType::CatppuccinMocha => "Catppuccin Mocha"@,
        ThemeType::CatppuccinLatte => "Catppuccin Latte"@,
        ThemeType::TokyoNightDark => "Tokyo Night"@,
        ThemeType::TokyoNightLight => "Tokyo Night Light"@,
    }
}

/// The name under which a theme is written to the settings.
pub open spec fn theme_config_name(t: ThemeType) -> Seq<char> {
    match t {
        ThemeType::Dark => "dark"@,
        ThemeType::Light => "light"@,
        ThemeType::NoColor => "nocolor"@,
        ThemeType::Midnight => "midnight"@,
        ThemeType::SolarizedDark => "solarized-dark"@,
        ThemeType::SolarizedLight => "solarized-light"@,
        ThemeType::GruvboxDark => "gruvbox-dark"@,
        ThemeType::GruvboxLight => "gruvbox-light"@,
        ThemeType::CatppuccinMocha => "catppuccin-mocha"@,
        ThemeType::CatppuccinLatte => "catppuccin-latte"@,
        ThemeType::TokyoNightDark => "tokyonight-dark"@,
        ThemeType::TokyoNightLight => "tokyonight-light"@,
    }
}

/// All themes, in the order in which they are offered.
pub open spec fn all_themes() -> Seq<ThemeType> {
    seq![
        ThemeType::Dark,
        ThemeType::Light,
        ThemeType::Midnight,
        ThemeType::SolarizedDark,
        ThemeType::SolarizedLight,
        ThemeType::GruvboxDark,
        ThemeType::GruvboxLight,
        ThemeType::CatppuccinMocha,
        ThemeType::CatppuccinLatte,
        ThemeType::TokyoNightDark,
        ThemeType::TokyoNightLight,
        ThemeType::NoColor,
    ]
}

impl ThemeType {
    /// The name under which this theme is shown.
    pub fn name(&self) -> (r: &'static str)
        ensures
            r@ == theme_display_name(*self),
    {
        match self {
            ThemeType::Dark => "Dark",
            ThemeType::Light => "Light",
            ThemeType::NoColor => "No Color",
            ThemeType::Midnight => "Midnight",
            ThemeType::SolarizedDark => "Solarized Dark",
            ThemeType::SolarizedLight => "Solarized Light",
            ThemeType::GruvboxDark => "Gruvbox Dark",
            ThemeType::GruvboxLight => "Gruvbox Light",
            ThemeType::CatppuccinMocha => "Catppuccin Mocha",
            ThemeType::CatppuccinLatte => "Catppuccin Latte",
            ThemeType::TokyoNightDark => "Tokyo Night",
            ThemeType::TokyoNightLight => "Tokyo Night Light",
        }
    }

    /// The name under which this theme is written to the settings.
    pub fn to_config_string(&self) -> (r: &'static str)
        ensures
            r@ == theme_config_name(*self),
    {
        match self {
            ThemeType::Dark => "dark",
            ThemeType::Light => "light",
            ThemeType::NoColor => "nocolor",
            ThemeType::Midnight => "midnight",
            ThemeType::SolarizedDark => "solarized-dark",
            ThemeType::SolarizedLight => "solarized-light",
            ThemeType::GruvboxDark => "gruvbox-dark",
            ThemeType::GruvboxLight => "gruvbox-light",
            ThemeType::CatppuccinMocha => "catppuccin-mocha",
            ThemeType::CatppuccinLatte => "catppuccin-latte",
            ThemeType::TokyoNightDark => "tokyonight-dark",
            ThemeType::TokyoNightLight => "tokyonight-light",
        }
    }

    /// All themes, in the order in which they are offered.
    pub fn all() -> (r: Vec<ThemeType>)
        ensures
            r@ == all_themes(),
    {
        let mut r: Vec<ThemeType> = Vec::new();
        r.push(ThemeType::Dark);
        r.push(ThemeType::Light);
        r.push(ThemeType::Midnight);
        r.push(ThemeType::SolarizedDark);
        r.push(ThemeType::SolarizedLight);
        r.push(ThemeType::GruvboxDark);
        r.push(ThemeType::GruvboxLight);
        r.push(ThemeType::CatppuccinMocha);
        r.push(ThemeType::CatppuccinLatte);
        r.push(ThemeType::TokyoNightDark);
        r.push(ThemeType::TokyoNightLight);
        r.push(ThemeType::NoColor);
        assert(r@ =~= all_themes());
        r
    }

    /// The theme that a lowercase name stands for.
    pub fn from_lowercase(s: &str) -> (r: ThemeType)
        ensures
            r == theme_named(s@),
    {
        if str_eq(s, "light") {
            ThemeType::Light
        } else if str_eq(s, "midnight") {
            ThemeType::Midnight
        } else if str_eq(s, "solarized-dark") || str_eq(s, "solarized_dark") || str_eq(
            s,
            "solarized",
        ) {
            ThemeType::SolarizedDark
        } else if str_eq(s, "solarized-light") || str_eq(s, "solarized_light") {
            ThemeType::SolarizedLight
        } else if str_eq(s, "gruvbox-dark") || str_eq(s, "gruvbox_dark") || str_eq(s, "gruvbox") {
            ThemeType::GruvboxDark
        } else if str_eq(s, "gruvbox-light") || str_eq(s, "gruvbox_light") {
            ThemeType::GruvboxLight
        } else if str_eq(s, "catppuccin-mocha") || str_eq(s, "catppuccin_mocha") || str_eq(
            s,
            "catppuccin",
        ) {
            ThemeType::CatppuccinMocha
        } else if str_eq(s, "catppuccin-latte") || str_eq(s, "catppuccin_latte") {
            ThemeType::CatppuccinLatte
        } else if str_eq(s, "tokyonight-dark") || str_eq(s, "tokyonight_dark") || str_eq(
            s,
            "tokyonight",
        ) || str_eq(s, "tokyo-night") || str_eq(s, "tokyo_night") {
            ThemeType::TokyoNightDark
        } else if str_eq(s, "tokyonight-light") || str_eq(s, "tokyonight_light") || str_eq(
            s,
            "tokyo-night-light",
        ) || str_eq(s, "tokyo_night_light") {
            ThemeType::TokyoNightLight
        } else if str_eq(s, "nocolor") || str_eq(s, "no-color") || str_eq(s, "no_color") {
            ThemeType::NoColor
        } else {
            ThemeType::Dark
        }
    }

    /// The theme that a name stands for, in any letter case.
    pub fn from_name(s: &str) -> (r: ThemeType)
        ensures
            r == theme_named(lowercase_text(s@)),
    {
        ThemeType::from_lowercase(lowercase(s).as_str())
    }
}

impl Default for ThemeType {
    fn default() -> (r: Self)
        ensures
            r == ThemeType::Dark,
    {
        ThemeType::Dark
    }
}

impl FromStr for ThemeType {
    type Err = ();

    fn from_str(s: &str) -> (r: Result<Self, Self::Err>)
        ensures
            r == Ok::<ThemeType, ()>(theme_named(lowercase_text(s@))),
    {
        Ok(ThemeType::from_name(s))
    }
}

} // verus!
