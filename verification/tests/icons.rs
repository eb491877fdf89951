use dotstate::icons::IconSet;
use dotstate::icons::Icons;

#[test]
fn test_icon_set_detection() {
    let icon_set = IconSet::detect(None, None);
    assert!(matches!(
        icon_set,
        IconSet::NerdFonts | IconSet::Unicode | IconSet::Ascii
    ));
}

#[test]
fn test_icons_creation() {
    let icons = Icons::new(None, None);
    assert!(!icons.folder().is_empty());
    assert!(!icons.sync().is_empty());
}

#[test]
fn test_all_icon_sets_have_values() {
    for icon_set in [IconSet::NerdFonts, IconSet::Unicode, IconSet::Ascii] {
        let icons = Icons::with_icon_set(icon_set);
        assert!(!icons.folder().is_empty());
        assert!(!icons.sync().is_empty());
        assert!(!icons.profile().is_empty());
        assert!(!icons.package().is_empty());
        assert!(!icons.git().is_empty());
        assert!(!icons.success().is_empty());
        assert!(!icons.warning().is_empty());
        assert!(!icons.error().is_empty());
    }
}

#[test]
fn detect_follows_the_users_choice_in_any_case() {
    assert_eq!(IconSet::detect(Some("NERD"), None), IconSet::NerdFonts);
    assert_eq!(IconSet::detect(Some("NerdFonts"), Some("xterm")), IconSet::NerdFonts);
    assert_eq!(IconSet::detect(Some("Emoji"), None), IconSet::Emoji);
    assert_eq!(IconSet::detect(Some("plain"), Some("kitty")), IconSet::Ascii);
    assert_eq!(IconSet::detect(Some("ASCII"), None), IconSet::Ascii);
    assert_eq!(IconSet::detect(Some("something"), Some("kitty")), IconSet::Unicode);
}

#[test]
fn detect_knows_terminals_with_patched_fonts() {
    assert_eq!(IconSet::detect(None, Some("WezTerm")), IconSet::NerdFonts);
    assert_eq!(IconSet::detect(None, Some("iTerm.app")), IconSet::NerdFonts);
    assert_eq!(IconSet::detect(None, Some("xterm")), IconSet::Unicode);
    assert_eq!(IconSet::detect(None, None), IconSet::Unicode);
}

#[test]
fn icons_by_settings() {
    assert_eq!(
        Icons::from_config(None, Some("kitty"), IconSet::Ascii).icon_set(),
        IconSet::Ascii
    );
    assert_eq!(
        Icons::from_config(Some("emoji"), None, IconSet::Ascii).icon_set(),
        IconSet::Emoji
    );
}

#[test]
fn ascii_icons_are_exact() {
    let icons = Icons::with_icon_set(IconSet::Ascii);
    assert_eq!(icons.folder(), "[DIR]");
    assert_eq!(icons.file(), "[FILE]");
    assert_eq!(icons.sync(), "[SYNC]");
    assert_eq!(icons.success(), "[OK]");
    assert_eq!(icons.uncheck(), "[ ]");
    assert_eq!(IconSet::Ascii.name(), "ASCII");
    assert_eq!(IconSet::NerdFonts.name(), "NerdFonts");
    assert_eq!(Icons::with_icon_set(IconSet::NerdFonts).folder(), "\u{ea83}");
}

#[test]
fn every_icon_of_every_set_has_text() {
    for icon_set in [IconSet::NerdFonts, IconSet::Unicode, IconSet::Emoji, IconSet::Ascii] {
        let icons = Icons::with_icon_set(icon_set);
        assert_eq!(icons.icon_set(), icon_set);
        let all = [
            icons.folder(),
            icons.file(),
            icons.sync(),
            icons.loading(),
            icons.profile(),
            icons.package(),
            icons.git(),
            icons.update(),
            icons.menu(),
            icons.success(),
            icons.warning(),
            icons.error(),
            icons.info(),
            icons.lightbulb(),
            icons.active_profile(),
            icons.inactive_profile(),
            icons.check(),
            icons.uncheck(),
            icons.create(),
            icons.github(),
            icons.wrench(),
            icons.plug(),
            icons.circle_filled(),
            icons.circle_empty(),
            icons.cog(),
        ];
        assert!(all.iter().all(|text| !text.is_empty()));
    }
    let ascii = Icons::with_icon_set(IconSet::Ascii);
    assert_eq!(ascii.loading(), "[LD]");
    assert_eq!(ascii.lightbulb(), "[IDEA]");
    assert_eq!(ascii.inactive_profile(), "[ ]");
    assert_eq!(ascii.wrench(), "[TOOL]");
    assert_eq!(ascii.plug(), "[CONN]");
    assert_eq!(ascii.circle_filled(), "[x]");
    assert_eq!(ascii.circle_empty(), "[ ]");
    assert_eq!(ascii.cog(), "[*]");
}
