//! Icons for the terminal, in four sets: glyphs of patched fonts, plain
//! Unicode, emoji, and ASCII.

use vstd::prelude::*;
use crate::scan::lowercase;
use crate::scan::lowercase_text;
use crate::strings::str_eq;

verus! {

/// The available icon sets.
#[derive(Debug, Clone, Copy, PartialEq, Eq, Structural)]
pub enum IconSet {
    /// Glyphs of a patched font.
    NerdFonts,
    /// Plain Unicode symbols.
    Unicode,
    /// Emoji.
    Emoji,
    /// ASCII only.
    Ascii,
}

/// The icon set that a lowercase name stands for; an unknown name stands
/// for Unicode.
pub open spec fn icon_set_named(name: Seq<char>) -> IconSet {
    if name == "nerd"@ || name == "nerdfont"@ || name == "nerdfonts"@ {
        IconSet::NerdFonts
    } else if name == "unicode"@ {
        IconSet::Unicode
    } else if name == "emoji"@ {
        IconSet::Emoji
    } else if name == "ascii"@ || name == "plain"@ {
        IconSet::Ascii
    } else {
        IconSet::Unicode
    }
}

/// Whether a terminal program is known for fonts with the extra glyphs.
pub open spec fn supports_nerd_fonts(term_program: Seq<char>) -> bool {
    term_program == "iTerm.app"@ || term_program == "WezTerm"@ || term_program == "Alacritty"@
        || term_program == "kitty"@ || term_program == "Ghostty"@ || term_program == "Hyper"@
        || term_program == "Tabby"@
}

/// The icon set for a terminal: the one that the user's choice `choice`
/// names, in any letter case; without a choice, the patched glyphs for a
/// terminal program known for them and Unicode for any other.
pub open spec fn detected(choice: Option<Seq<char>>, term_program: Option<Seq<char>>) -> IconSet {
    match choice {
        Some(name) => icon_set_named(lowercase_text(name)),
        None => match term_program {
            Some(t) => if supports_nerd_fonts(t) {
                IconSet::NerdFonts
            } else {
                IconSet::Unicode
            },
            None => IconSet::Unicode,
        },
    }
}

/// The text of `set` among the four given.
pub open spec fn pick(
    set: IconSet,
    nerd: Seq<char>,
    unicode: Seq<char>,
    emoji: Seq<char>,
    ascii: Seq<char>,
) -> Seq<char> {
    match set {
        IconSet::NerdFonts => nerd,
        IconSet::Unicode => unicode,
        IconSet::Emoji => emoji,
        IconSet::Ascii => ascii,
    }
}

impl IconSet {
    /// The icon set that a lowercase name stands for.
    pub fn from_name(name: &str) -> (r: IconSet)
        ensures
            r == icon_set_named(name@),
    {
        if str_eq(name, "nerd") || str_eq(name, "nerdfont") || str_eq(name, "nerdfonts") {
            IconSet::NerdFonts
        } else if str_eq(name, "unicode") {
            IconSet::Unicode
        } else if str_eq(name, "emoji") {
            IconSet::Emoji
        } else if str_eq(name, "ascii") || str_eq(name, "plain") {
            IconSet::Ascii
        } else {
            IconSet::Unicode
        }
    }

    /// Whether the terminal program, where one is known, is known for
    /// fonts with the extra glyphs.
    pub fn likely_supports_nerd_fonts(term_program: Option<&str>) -> (r: bool)
        ensures
            r == match term_program {
                Some(t) => supports_nerd_fonts(t@),
                None => false,
            },
    {
        match term_program {
            Some(t) => str_eq(t, "iTerm.app") || str_eq(t, "WezTerm") || str_eq(t, "Alacritty")
                || str_eq(t, "kitty") || str_eq(t, "Ghostty") || str_eq(t, "Hyper") || str_eq(
                t,
                "Tabby",
            ),
            None => false,
        }
    }

    /// The best icon set for the terminal. `choice` is what the user asked
    /// for, `term_program` the terminal program, each where it is known.
    pub fn detect(choice: Option<&str>, term_program: Option<&str>) -> (r: IconSet)
        ensures
            r == detected(
                match choice {
                    Some(c) => Some(c@),
                    None => None,
                },
                match term_program {
                    Some(t) => Some(t@),
                    None => None,
                },
            ),
    {
        match choice {
            Some(name) => IconSet::from_name(lowercase(name).as_str()),
            None => if IconSet::likely_supports_nerd_fonts(term_program) {
                IconSet::NerdFonts
            } else {
                IconSet::Unicode
            },
        }
    }

    /// The name of this icon set.
    pub fn name(&self) -> (r: &'static str)
        ensures
            r@ == pick(*self, "NerdFonts"@, "Unicode"@, "Emoji"@, "ASCII"@),
    {
        match self {
            IconSet::NerdFonts => "NerdFonts",
            IconSet::Unicode => "Unicode",
            IconSet::Emoji => "Emoji",
            IconSet::Ascii => "ASCII",
        }
    }
}

/// The icons of one icon set.
#[derive(Debug, Clone, Copy, PartialEq, Eq, Structural)]
pub struct Icons {
    icon_set: IconSet,
}

impl Icons {
    /// The icon set in use.
    pub closed spec fn set(&self) -> IconSet {
        self.icon_set
    }

    /// The icons of the best icon set for the terminal.
    pub fn new(choice: Option<&str>, term_program: Option<&str>) -> (r: Self)
        ensures
            r.set() == detected(
                match choice {
                    Some(c) => Some(c@),
                    None => None,
                },
                match term_program {
                    Some(t) => Some(t@),
                    None => None,
                },
            ),
    {
        Icons { icon_set: IconSet::detect(choice, term_program) }
    }

    /// The icons of `icon_set`.
    pub fn with_icon_set(icon_set: IconSet) -> (r: Self)
        ensures
            r.set() == icon_set,
    {
        Icons { icon_set }
    }

    /// The icons by settings: the user's choice `choice` goes before the
    /// configured set, which goes before detection.
    pub fn from_config(choice: Option<&str>, term_program: Option<&str>, configured: IconSet) -> (r:
        Self)
        ensures
            r.set() == match choice {
                Some(c) => icon_set_named(lowercase_text(c@)),
                None => configured,
            },
    {
        match choice {
            Some(_) => Icons::new(choice, term_program),
            None => Icons::with_icon_set(configured),
        }
    }

    /// The icon set in use.
    pub fn icon_set(&self) -> (r: IconSet)
        ensures
            r == self.set(),
    {
        self.icon_set
    }

    /// A directory.
    pub fn folder(&self) -> (r: &'static str)
        ensures
            r@ == pick(self.set(), "\u{ea83}"@, "\u{e2}\u{2013}\u{b6}"@, "\u{f0}\u{178}\u{201c}"@, "[DIR]"@),
    {
        match self.icon_set {
            IconSet::NerdFonts => "\u{ea83}",
            IconSet::Unicode => "\u{e2}\u{2013}\u{b6}",
            IconSet::Emoji => "\u{f0}\u{178}\u{201c}",
            IconSet::Ascii => "[DIR]",
        }
    }

    /// A file.
    pub fn file(&self) -> (r: &'static str)
        ensures
            r@ == pick(self.set(), "\u{f15b}"@, "\u{e2}\u{2014}\u{2021}"@, "\u{f0}\u{178}\u{201c}\u{201e}"@, "[FILE]"@),
    {
        match self.icon_set {
            IconSet::NerdFonts => "\u{f15b}",
            IconSet::Unicode => "\u{e2}\u{2014}\u{2021}",
            IconSet::Emoji => "\u{f0}\u{178}\u{201c}\u{201e}",
            IconSet::Ascii => "[FILE]",
        }
    }

    /// Syncing with the remote.
    pub fn sync(&self) -> (r: &'static str)
        ensures
            r@ == pick(self.set(), "\u{f14ce}"@, "\u{e2}\u{2020}\u{bb}"@, "\u{f0}\u{178}\u{201d}\u{201e}"@, "[SYNC]"@),
    {
        match self.icon_set {
            IconSet::NerdFonts => "\u{f14ce}",
            IconSet::Unicode => "\u{e2}\u{2020}\u{bb}",
            IconSet::Emoji => "\u{f0}\u{178}\u{201d}\u{201e}",
            IconSet::Ascii => "[SYNC]",
        }
    }

    /// Work in progress.
    pub fn loading(&self) -> (r: &'static str)
        ensures
            r@ == pick(self.set(), "\u{f021}"@, "\u{e2}\u{2014}\u{152}"@, "\u{e2}\u{b3}"@, "[LD]"@),
    {
        match self.icon_set {
            IconSet::NerdFonts => "\u{f021}",
            IconSet::Unicode => "\u{e2}\u{2014}\u{152}",
            IconSet::Emoji => "\u{e2}\u{b3}",
            IconSet::Ascii => "[LD]",
        }
    }

    /// A profile.
    pub fn profile(&self) -> (r: &'static str)
        ensures
            r@ == pick(self.set(), "\u{f007}"@, "\u{e2}\u{2014}\u{2030}"@, "\u{f0}\u{178}\u{2018}\u{a4}"@, "[USR]"@),
    {
        match self.icon_set {
            IconSet::NerdFonts => "\u{f007}",
            IconSet::Unicode => "\u{e2}\u{2014}\u{2030}",
            IconSet::Emoji => "\u{f0}\u{178}\u{2018}\u{a4}",
            IconSet::Ascii => "[USR]",
        }
    }

    /// A package.
    pub fn package(&self) -> (r: &'static str)
        ensures
            r@ == pick(self.set(), "\u{eb29}"@, "\u{e2}\u{2014}\u{2020}"@, "\u{f0}\u{178}\u{201c}\u{a6}"@, "[PKG]"@),
    {
        match self.icon_set {
            IconSet::NerdFonts => "\u{eb29}",
            IconSet::Unicode => "\u{e2}\u{2014}\u{2020}",
            IconSet::Emoji => "\u{f0}\u{178}\u{201c}\u{a6}",
            IconSet::Ascii => "[PKG]",
        }
    }

    /// Git.
    pub fn git(&self) -> (r: &'static str)
        ensures
            r@ == pick(self.set(), "\u{f1d2}"@, "\u{e2}\u{17d}\u{2021}"@, "\u{f0}\u{178}\u{201d}\u{a7}"@, "[GIT]"@),
    {
        match self.icon_set {
            IconSet::NerdFonts => "\u{f1d2}",
            IconSet::Unicode => "\u{e2}\u{17d}\u{2021}",
            IconSet::Emoji => "\u{f0}\u{178}\u{201d}\u{a7}",
            IconSet::Ascii => "[GIT]",
        }
    }

    /// An available update.
    pub fn update(&self) -> (r: &'static str)
        ensures
            r@ == pick(self.set(), "\u{f06b0}"@, "\u{e2}\u{2020}\u{2018}"@, "\u{f0}\u{178}\u{17d}\u{2030}"@, "[UPD]"@),
    {
        match self.icon_set {
            IconSet::NerdFonts => "\u{f06b0}",
            IconSet::Unicode => "\u{e2}\u{2020}\u{2018}",
            IconSet::Emoji => "\u{f0}\u{178}\u{17d}\u{2030}",
            IconSet::Ascii => "[UPD]",
        }
    }

    /// A menu.
    pub fn menu(&self) -> (r: &'static str)
        ensures
            r@ == pick(self.set(), "\u{f0c9}"@, "\u{e2}\u{2030}\u{a1}"@, "\u{f0}\u{178}\u{201c}\u{2039}"@, "[MENU]"@),
    {
        match self.icon_set {
            IconSet::NerdFonts => "\u{f0c9}",
            IconSet::Unicode => "\u{e2}\u{2030}\u{a1}",
            IconSet::Emoji => "\u{f0}\u{178}\u{201c}\u{2039}",
            IconSet::Ascii => "[MENU]",
        }
    }

    /// Success.
    pub fn success(&self) -> (r: &'static str)
        ensures
            r@ == pick(self.set(), "\u{f00c}"@, "\u{e2}\u{153}\u{201c}"@, "\u{e2}\u{153}\u{2026}"@, "[OK]"@),
    {
        match self.icon_set {
            IconSet::NerdFonts => "\u{f00c}",
            IconSet::Unicode => "\u{e2}\u{153}\u{201c}",
            IconSet::Emoji => "\u{e2}\u{153}\u{2026}",
            IconSet::Ascii => "[OK]",
        }
    }

    /// A warning.
    pub fn warning(&self) -> (r: &'static str)
        ensures
            r@ == pick(self.set(), "\u{f071}"@, "\u{e2}\u{161}\u{a0}"@, "\u{e2}\u{161}\u{a0}\u{ef}\u{b8}"@, "[!]"@),
    {
        match self.icon_set {
            IconSet::NerdFonts => "\u{f071}",
            IconSet::Unicode => "\u{e2}\u{161}\u{a0}",
            IconSet::Emoji => "\u{e2}\u{161}\u{a0}\u{ef}\u{b8}",
            IconSet::Ascii => "[!]",
        }
    }

    /// An error.
    pub fn error(&self) -> (r: &'static str)
        ensures
            r@ == pick(self.set(), "\u{ebfb}"@, "\u{e2}\u{153}\u{2014}"@, "\u{e2}\u{152}"@, "[X]"@),
    {
        match self.icon_set {
            IconSet::NerdFonts => "\u{ebfb}",
            IconSet::Unicode => "\u{e2}\u{153}\u{2014}",
            IconSet::Emoji => "\u{e2}\u{152}",
            IconSet::Ascii => "[X]",
        }
    }

    /// A piece of information.
    pub fn info(&self) -> (r: &'static str)
        ensures
            r@ == pick(self.set(), "\u{f05a}"@, "\u{e2}\u{201e}\u{b9}"@, "\u{e2}\u{201e}\u{b9}\u{ef}\u{b8}"@, "[i]"@),
    {
        match self.icon_set {
            IconSet::NerdFonts => "\u{f05a}",
            IconSet::Unicode => "\u{e2}\u{201e}\u{b9}",
            IconSet::Emoji => "\u{e2}\u{201e}\u{b9}\u{ef}\u{b8}",
            IconSet::Ascii => "[i]",
        }
    }

    /// A hint.
    pub fn lightbulb(&self) -> (r: &'static str)
        ensures
            r@ == pick(self.set(), "\u{f0eb}"@, "\u{e2}\u{2dc}\u{2020}"@, "\u{f0}\u{178}\u{2019}\u{a1}"@, "[IDEA]"@),
    {
        match self.icon_set {
            IconSet::NerdFonts => "\u{f0eb}",
            IconSet::Unicode => "\u{e2}\u{2dc}\u{2020}",
            IconSet::Emoji => "\u{f0}\u{178}\u{2019}\u{a1}",
            IconSet::Ascii => "[IDEA]",
        }
    }

    /// The active profile.
    pub fn active_profile(&self) -> (r: &'static str)
        ensures
            r@ == pick(self.set(), "\u{f005}"@, "\u{e2}\u{2dc}\u{2026}"@, "\u{e2}\u{ad}"@, "[*]"@),
    {
        match self.icon_set {
            IconSet::NerdFonts => "\u{f005}",
            IconSet::Unicode => "\u{e2}\u{2dc}\u{2026}",
            IconSet::Emoji => "\u{e2}\u{ad}",
            IconSet::Ascii => "[*]",
        }
    }

    /// A profile that is not active.
    pub fn inactive_profile(&self) -> (r: &'static str)
        ensures
            r@ == pick(self.set(), "\u{f111}"@, "\u{e2}\u{2014}\u{2039}"@, "\u{e2}\u{2014}\u{2039}"@, "[ ]"@),
    {
        match self.icon_set {
            IconSet::NerdFonts => "\u{f111}",
            IconSet::Unicode => "\u{e2}\u{2014}\u{2039}",
            IconSet::Emoji => "\u{e2}\u{2014}\u{2039}",
            IconSet::Ascii => "[ ]",
        }
    }

    /// A checked box.
    pub fn check(&self) -> (r: &'static str)
        ensures
            r@ == pick(self.set(), "\u{f42e}"@, "\u{e2}\u{153}\u{201c}"@, "\u{e2}\u{153}\u{2026}"@, "[x]"@),
    {
        match self.icon_set {
            IconSet::NerdFonts => "\u{f42e}",
            IconSet::Unicode => "\u{e2}\u{153}\u{201c}",
            IconSet::Emoji => "\u{e2}\u{153}\u{2026}",
            IconSet::Ascii => "[x]",
        }
    }

    /// An unchecked box.
    pub fn uncheck(&self) -> (r: &'static str)
        ensures
            r@ == pick(self.set(), " "@, " "@, " "@, "[ ]"@),
    {
        match self.icon_set {
            IconSet::NerdFonts => " ",
            IconSet::Unicode => " ",
            IconSet::Emoji => " ",
            IconSet::Ascii => "[ ]",
        }
    }

    /// Creating something new.
    pub fn create(&self) -> (r: &'static str)
        ensures
            r@ == pick(self.set(), "\u{f067}"@, "+"@, "\u{f0}\u{178}\u{2020}\u{2022}"@, "[+]"@),
    {
        match self.icon_set {
            IconSet::NerdFonts => "\u{f067}",
            IconSet::Unicode => "+",
            IconSet::Emoji => "\u{f0}\u{178}\u{2020}\u{2022}",
            IconSet::Ascii => "[+]",
        }
    }

    /// GitHub.
    pub fn github(&self) -> (r: &'static str)
        ensures
            r@ == pick(self.set(), "\u{f09b}"@, "\u{e2}\u{17d}\u{2021}"@, "\u{f0}\u{178}\u{201d}\u{a7}"@, "[GH]"@),
    {
        match self.icon_set {
            IconSet::NerdFonts => "\u{f09b}",
            IconSet::Unicode => "\u{e2}\u{17d}\u{2021}",
            IconSet::Emoji => "\u{f0}\u{178}\u{201d}\u{a7}",
            IconSet::Ascii => "[GH]",
        }
    }

    /// A tool.
    pub fn wrench(&self) -> (r: &'static str)
        ensures
            r@ == pick(self.set(), "\u{f0ad}"@, "\u{e2}\u{161}\u{2019}"@, "\u{f0}\u{178}\u{201d}\u{a7}"@, "[TOOL]"@),
    {
        match self.icon_set {
            IconSet::NerdFonts => "\u{f0ad}",
            IconSet::Unicode => "\u{e2}\u{161}\u{2019}",
            IconSet::Emoji => "\u{f0}\u{178}\u{201d}\u{a7}",
            IconSet::Ascii => "[TOOL]",
        }
    }

    /// A connection.
    pub fn plug(&self) -> (r: &'static str)
        ensures
            r@ == pick(self.set(), "\u{f1e6}"@, "\u{e2}\u{152}\u{2dc}"@, "\u{f0}\u{178}\u{201d}\u{152}"@, "[CONN]"@),
    {
        match self.icon_set {
            IconSet::NerdFonts => "\u{f1e6}",
            IconSet::Unicode => "\u{e2}\u{152}\u{2dc}",
            IconSet::Emoji => "\u{f0}\u{178}\u{201d}\u{152}",
            IconSet::Ascii => "[CONN]",
        }
    }

    /// A filled circle.
    pub fn circle_filled(&self) -> (r: &'static str)
        ensures
            r@ == pick(self.set(), "\u{f111}"@, "\u{e2}\u{2014}"@, "\u{e2}\u{2014}"@, "[x]"@),
    {
        match self.icon_set {
            IconSet::NerdFonts => "\u{f111}",
            IconSet::Unicode => "\u{e2}\u{2014}",
            IconSet::Emoji => "\u{e2}\u{2014}",
            IconSet::Ascii => "[x]",
        }
    }

    /// An empty circle.
    pub fn circle_empty(&self) -> (r: &'static str)
        ensures
            r@ == pick(self.set(), "\u{f1db}"@, "\u{e2}\u{2014}\u{2039}"@, "\u{e2}\u{2014}\u{2039}"@, "[ ]"@),
    {
        match self.icon_set {
            IconSet::NerdFonts => "\u{f1db}",
            IconSet::Unicode => "\u{e2}\u{2014}\u{2039}",
            IconSet::Emoji => "\u{e2}\u{2014}\u{2039}",
            IconSet::Ascii => "[ ]",
        }
    }

    /// Settings.
    pub fn cog(&self) -> (r: &'static str)
        ensures
            r@ == pick(self.set(), "\u{f013}"@, "\u{e2}\u{161}\u{2122}"@, "\u{e2}\u{161}\u{2122}\u{ef}\u{b8}"@, "[*]"@),
    {
        match self.icon_set {
            IconSet::NerdFonts => "\u{f013}",
            IconSet::Unicode => "\u{e2}\u{161}\u{2122}",
            IconSet::Emoji => "\u{e2}\u{161}\u{2122}\u{ef}\u{b8}",
            IconSet::Ascii => "[*]",
        }
    }
}

} // verus!
