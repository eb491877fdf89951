//! Keyboard shortcuts: three preset keymaps and the user's overrides.
//!
//! A binding names its key as text: a key name, or one character, with
//! `ctrl+`, `alt+` or `shift+` in front of it as often as needed.

use vstd::prelude::*;
use crate::strings::chars_of;
use crate::strings::str_eq;
use crate::strings::string_of_range;

verus! {

/// What a key press asks for.
#[derive(Debug, Clone, Copy, PartialEq, Eq, Structural)]
pub enum Action {
    MoveUp,
    MoveDown,
    MoveLeft,
    MoveRight,
    PageUp,
    PageDown,
    GoToTop,
    GoToEnd,
    ScrollUp,
    ScrollDown,
    Confirm,
    Cancel,
    Quit,
    NextTab,
    PrevTab,
    Help,
}

/// A key of the keyboard.
#[derive(Debug, Clone, Copy, PartialEq, Eq, Structural)]
pub enum Key {
    Char(char),
    Enter,
    Esc,
    Tab,
    BackTab,
    Backspace,
    Delete,
    Up,
    Down,
    Left,
    Right,
    Home,
    End,
    PageUp,
    PageDown,
}

/// A key with the modifiers held down.
#[derive(Debug, Clone, Copy, PartialEq, Eq, Structural)]
pub struct KeyPress {
    pub key: Key,
    pub ctrl: bool,
    pub alt: bool,
    pub shift: bool,
}

/// The key that a name stands for: the character itself for a name of one
/// character, otherwise one of the named keys.
pub open spec fn key_named(name: Seq<char>) -> Option<Key> {
    if name.len() == 1 {
        Some(Key::Char(name[0]))
    } else if name == "space"@ {
        Some(Key::Char(' '))
    } else if name == "enter"@ {
        Some(Key::Enter)
    } else if name == "esc"@ {
        Some(Key::Esc)
    } else if name == "tab"@ {
        Some(Key::Tab)
    } else if name == "backtab"@ {
        Some(Key::BackTab)
    } else if name == "backspace"@ {
        Some(Key::Backspace)
    } else if name == "delete"@ {
        Some(Key::Delete)
    } else if name == "up"@ {
        Some(Key::Up)
    } else if name == "down"@ {
        Some(Key::Down)
    } else if name == "left"@ {
        Some(Key::Left)
    } else if name == "right"@ {
        Some(Key::Right)
    } else if name == "home"@ {
        Some(Key::Home)
    } else if name == "end"@ {
        Some(Key::End)
    } else if name == "pageup"@ {
        Some(Key::PageUp)
    } else if name == "pagedown"@ {
        Some(Key::PageDown)
    } else {
        None
    }
}

/// Whether `text` begins with `prefix` and goes on after it.
pub open spec fn has_prefix(text: Seq<char>, prefix: Seq<char>) -> bool {
    prefix.len() < text.len() && text.take(prefix.len() as int) == prefix
}

/// The key press that the text of a binding stands for, if it stands for
/// one.
pub open spec fn parsed_press(text: Seq<char>) -> Option<KeyPress>
    decreases text.len(),
{
    if has_prefix(text, seq!['c', 't', 'r', 'l', '+']) {
        match parsed_press(text.skip(5)) {
            Some(p) => Some(KeyPress { key: p.key, ctrl: true, alt: p.alt, shift: p.shift }),
            None => None,
        }
    } else if has_prefix(text, seq!['a', 'l', 't', '+']) {
        match parsed_press(text.skip(4)) {
            Some(p) => Some(KeyPress { key: p.key, ctrl: p.ctrl, alt: true, shift: p.shift }),
            None => None,
        }
    } else if has_prefix(text, seq!['s', 'h', 'i', 'f', 't', '+']) {
        match parsed_press(text.skip(6)) {
            Some(p) => Some(KeyPress { key: p.key, ctrl: p.ctrl, alt: p.alt, shift: true }),
            None => None,
        }
    } else {
        match key_named(text) {
            Some(key) => Some(KeyPress { key, ctrl: false, alt: false, shift: false }),
            None => None,
        }
    }
}

fn key_for_name(name: &str) -> (r: Option<Key>)
    ensures
        r == key_named(name@),
{
    let chars = chars_of(name);
    if chars.len() == 1 {
        Some(Key::Char(chars[0]))
    } else if str_eq(name, "space") {
        Some(Key::Char(' '))
    } else if str_eq(name, "enter") {
        Some(Key::Enter)
    } else if str_eq(name, "esc") {
        Some(Key::Esc)
    } else if str_eq(name, "tab") {
        Some(Key::Tab)
    } else if str_eq(name, "backtab") {
        Some(Key::BackTab)
    } else if str_eq(name, "backspace") {
        Some(Key::Backspace)
    } else if str_eq(name, "delete") {
        Some(Key::Delete)
    } else if str_eq(name, "up") {
        Some(Key::Up)
    } else if str_eq(name, "down") {
        Some(Key::Down)
    } else if str_eq(name, "left") {
        Some(Key::Left)
    } else if str_eq(name, "right") {
        Some(Key::Right)
    } else if str_eq(name, "home") {
        Some(Key::Home)
    } else if str_eq(name, "end") {
        Some(Key::End)
    } else if str_eq(name, "pageup") {
        Some(Key::PageUp)
    } else if str_eq(name, "pagedown") {
        Some(Key::PageDown)
    } else {
        None
    }
}

fn starts_at(chars: &Vec<char>, from: usize, prefix: &Vec<char>) -> (r: bool)
    requires
        from <= chars.len(),
    ensures
        r == has_prefix(chars@.skip(from as int), prefix@),
{
    if prefix.len() >= chars.len() - from {
        return false;
    }
    let mut k: usize = 0;
    while k < prefix.len()
        invariant
            k <= prefix.len(),
            from + prefix.len() < chars.len(),
            forall|j: int| 0 <= j < k ==> chars@[from + j] == prefix@[j],
        decreases prefix.len() - k,
    {
        if chars[from + k] != prefix[k] {
            assert(chars@.skip(from as int).take(prefix.len() as int)[k as int] != prefix@[k as int]);
            return false;
        }
        k += 1;
    }
    assert(chars@.skip(from as int).take(prefix.len() as int) =~= prefix@);
    true
}

/// Reads the text of a binding.
pub fn parse_press(text: &str) -> (r: Option<KeyPress>)
    ensures
        r == parsed_press(text@),
{
    let chars = chars_of(text);
    let ctrl_prefix = chars_of("ctrl+");
    let alt_prefix = chars_of("alt+");
    let shift_prefix = chars_of("shift+");
    proof {
        reveal_strlit("ctrl+");
        reveal_strlit("alt+");
        reveal_strlit("shift+");
        assert(ctrl_prefix@ =~= seq!['c', 't', 'r', 'l', '+']);
        assert(alt_prefix@ =~= seq!['a', 'l', 't', '+']);
        assert(shift_prefix@ =~= seq!['s', 'h', 'i', 'f', 't', '+']);
    }
    let mut ctrl = false;
    let mut alt = false;
    let mut shift = false;
    let mut from: usize = 0;
    assert(chars@.skip(0) =~= text@);
    loop
        invariant
            from <= chars.len(),
            chars@ == text@,
            ctrl_prefix@ == seq!['c', 't', 'r', 'l', '+'],
            alt_prefix@ == seq!['a', 'l', 't', '+'],
            shift_prefix@ == seq!['s', 'h', 'i', 'f', 't', '+'],
            parsed_press(text@) == match parsed_press(chars@.skip(from as int)) {
                Some(p) => Some(
                    KeyPress {
                        key: p.key,
                        ctrl: p.ctrl || ctrl,
                        alt: p.alt || alt,
                        shift: p.shift || shift,
                    },
                ),
                None => None,
            },
        decreases chars.len() - from,
    {
        let ghost rest = chars@.skip(from as int);
        if starts_at(&chars, from, &ctrl_prefix) {
            assert(rest.skip(5) =~= chars@.skip(from + 5));
            ctrl = true;
            from += 5;
        } else if starts_at(&chars, from, &alt_prefix) {
            assert(rest.skip(4) =~= chars@.skip(from + 4));
            alt = true;
            from += 4;
        } else if starts_at(&chars, from, &shift_prefix) {
            assert(rest.skip(6) =~= chars@.skip(from + 6));
            shift = true;
            from += 6;
        } else {
            let name = string_of_range(&chars, from, chars.len());
            assert(name@ =~= rest);
            return match key_for_name(name.as_str()) {
                Some(key) => Some(KeyPress { key, ctrl, alt, shift }),
                None => None,
            };
        }
    }
}

/// A key bound to an action.
#[derive(Debug, PartialEq, Eq)]
pub struct KeyBinding {
    /// The key as text.
    pub key: String,
    pub action: Action,
}

/// The mathematical value of a `KeyBinding`.
pub struct BindingView {
    pub key: Seq<char>,
    pub action: Action,
}

impl View for KeyBinding {
    type V = BindingView;

    open spec fn view(&self) -> BindingView {
        BindingView { key: self.key@, action: self.action }
    }
}

impl DeepView for KeyBinding {
    type V = BindingView;

    open spec fn deep_view(&self) -> BindingView {
        self@
    }
}

impl Clone for KeyBinding {
    fn clone(&self) -> (r: Self)
        ensures
            r@ == self@,
    {
        KeyBinding { key: self.key.clone(), action: self.action }
    }
}

impl KeyBinding {
    /// Binds the key that `key` names to `action`.
    pub fn new(key: &str, action: Action) -> (r: Self)
        ensures
            r@ == (BindingView { key: key@, action }),
    {
        KeyBinding { key: key.to_owned(), action }
    }

    /// Whether this binding is for the key press `press`.
    pub fn matches(&self, press: KeyPress) -> (r: bool)
        ensures
            r == (parsed_press(self@.key) == Some(press)),
    {
        match parse_press(self.key.as_str()) {
            Some(p) => p == press,
            None => false,
        }
    }

    /// The key as shown to the user.
    pub fn display(&self) -> (r: String)
        ensures
            r@ == self@.key,
    {
        self.key.clone()
    }
}

/// The preset keymaps.
#[derive(Debug, Clone, Copy, PartialEq, Eq, Structural)]
pub enum KeymapPreset {
    Standard,
    Vim,
    Emacs,
}

/// A binding of `key` to `action`.
pub open spec fn bound(key: Seq<char>, action: Action) -> BindingView {
    BindingView { key, action }
}

/// The bindings of a preset, in the order in which they are tried and
/// shown.
pub open spec fn preset_bindings(preset: KeymapPreset) -> Seq<BindingView> {
    match preset {
        KeymapPreset::Standard => seq![
            bound("up"@, Action::MoveUp),
            bound("down"@, Action::MoveDown),
            bound("left"@, Action::MoveLeft),
            bound("right"@, Action::MoveRight),
            bound("pageup"@, Action::PageUp),
            bound("pagedown"@, Action::PageDown),
            bound("home"@, Action::GoToTop),
            bound("end"@, Action::GoToEnd),
            bound("enter"@, Action::Confirm),
            bound("esc"@, Action::Cancel),
            bound("q"@, Action::Quit),
            bound("tab"@, Action::NextTab),
            bound("backtab"@, Action::PrevTab),
            bound("?"@, Action::Help),
        ],
        KeymapPreset::Vim => seq![
            bound("k"@, Action::MoveUp),
            bound("j"@, Action::MoveDown),
            bound("h"@, Action::MoveLeft),
            bound("l"@, Action::MoveRight),
            bound("ctrl+u"@, Action::PageUp),
            bound("ctrl+d"@, Action::PageDown),
            bound("g"@, Action::GoToTop),
            bound("G"@, Action::GoToEnd),
            bound("enter"@, Action::Confirm),
            bound("esc"@, Action::Cancel),
            bound("q"@, Action::Quit),
            bound("tab"@, Action::NextTab),
            bound("backtab"@, Action::PrevTab),
            bound("?"@, Action::Help),
        ],
        KeymapPreset::Emacs => seq![
            bound("ctrl+p"@, Action::MoveUp),
            bound("ctrl+n"@, Action::MoveDown),
            bound("ctrl+b"@, Action::MoveLeft),
            bound("ctrl+f"@, Action::MoveRight),
            bound("alt+v"@, Action::PageUp),
            bound("ctrl+v"@, Action::PageDown),
            bound("alt+<"@, Action::GoToTop),
            bound("alt+>"@, Action::GoToEnd),
            bound("enter"@, Action::Confirm),
            bound("ctrl+g"@, Action::Cancel),
            bound("ctrl+q"@, Action::Quit),
            bound("tab"@, Action::NextTab),
            bound("backtab"@, Action::PrevTab),
            bound("?"@, Action::Help),
        ],
    }
}

fn bind_all(keys: [&str; 14]) -> (r: Vec<KeyBinding>)
    ensures
        r.deep_view() == seq![
            bound(keys[0]@, Action::MoveUp),
            bound(keys[1]@, Action::MoveDown),
            bound(keys[2]@, Action::MoveLeft),
            bound(keys[3]@, Action::MoveRight),
            bound(keys[4]@, Action::PageUp),
            bound(keys[5]@, Action::PageDown),
            bound(keys[6]@, Action::GoToTop),
            bound(keys[7]@, Action::GoToEnd),
            bound(keys[8]@, Action::Confirm),
            bound(keys[9]@, Action::Cancel),
            bound(keys[10]@, Action::Quit),
            bound(keys[11]@, Action::NextTab),
            bound(keys[12]@, Action::PrevTab),
            bound(keys[13]@, Action::Help),
        ],
{
    let mut r: Vec<KeyBinding> = Vec::new();
    r.push(KeyBinding::new(keys[0], Action::MoveUp));
    r.push(KeyBinding::new(keys[1], Action::MoveDown));
    r.push(KeyBinding::new(keys[2], Action::MoveLeft));
    r.push(KeyBinding::new(keys[3], Action::MoveRight));
    r.push(KeyBinding::new(keys[4], Action::PageUp));
    r.push(KeyBinding::new(keys[5], Action::PageDown));
    r.push(KeyBinding::new(keys[6], Action::GoToTop));
    r.push(KeyBinding::new(keys[7], Action::GoToEnd));
    r.push(KeyBinding::new(keys[8], Action::Confirm));
    r.push(KeyBinding::new(keys[9], Action::Cancel));
    r.push(KeyBinding::new(keys[10], Action::Quit));
    r.push(KeyBinding::new(keys[11], Action::NextTab));
    r.push(KeyBinding::new(keys[12], Action::PrevTab));
    r.push(KeyBinding::new(keys[13], Action::Help));
    assert(r.deep_view() =~= seq![
        bound(keys[0]@, Action::MoveUp),
        bound(keys[1]@, Action::MoveDown),
        bound(keys[2]@, Action::MoveLeft),
        bound(keys[3]@, Action::MoveRight),
        bound(keys[4]@, Action::PageUp),
        bound(keys[5]@, Action::PageDown),
        bound(keys[6]@, Action::GoToTop),
        bound(keys[7]@, Action::GoToEnd),
        bound(keys[8]@, Action::Confirm),
        bound(keys[9]@, Action::Cancel),
        bound(keys[10]@, Action::Quit),
        bound(keys[11]@, Action::NextTab),
        bound(keys[12]@, Action::PrevTab),
        bound(keys[13]@, Action::Help),
    ]);
    r
}

impl KeymapPreset {
    /// The name of this preset.
    pub fn name(&self) -> (r: &'static str)
        ensures
            r@ == match self {
                KeymapPreset::Standard => "Standard"@,
                KeymapPreset::Vim => "Vim"@,
                KeymapPreset::Emacs => "Emacs"@,
            },
    {
        match self {
            KeymapPreset::Standard => "Standard",
            KeymapPreset::Vim => "Vim",
            KeymapPreset::Emacs => "Emacs",
        }
    }

    /// The bindings of this preset.
    pub fn bindings(&self) -> (r: Vec<KeyBinding>)
        ensures
            r.deep_view() == preset_bindings(*self),
    {
        match self {
            KeymapPreset::Standard => bind_all(
                [
                    "up",
                    "down",
                    "left",
                    "right",
                    "pageup",
                    "pagedown",
                    "home",
                    "end",
                    "enter",
                    "esc",
                    "q",
                    "tab",
                    "backtab",
                    "?",
                ],
            ),
            KeymapPreset::Vim => bind_all(
                [
                    "k",
                    "j",
                    "h",
                    "l",
                    "ctrl+u",
                    "ctrl+d",
                    "g",
                    "G",
                    "enter",
                    "esc",
                    "q",
                    "tab",
                    "backtab",
                    "?",
                ],
            ),
            KeymapPreset::Emacs => bind_all(
                [
                    "ctrl+p",
                    "ctrl+n",
                    "ctrl+b",
                    "ctrl+f",
                    "alt+v",
                    "ctrl+v",
                    "alt+<",
                    "alt+>",
                    "enter",
                    "ctrl+g",
                    "ctrl+q",
                    "tab",
                    "backtab",
                    "?",
                ],
            ),
        }
    }
}

/// The action of the first of `bindings` that is for `press`.
pub open spec fn bound_action(bindings: Seq<BindingView>, press: KeyPress) -> Option<Action>
    decreases bindings.len(),
{
    if bindings.len() == 0 {
        None
    } else if parsed_press(bindings[0].key) == Some(press) {
        Some(bindings[0].action)
    } else {
        bound_action(bindings.drop_first(), press)
    }
}

/// The key of the first of `bindings` that is bound to `action`.
pub open spec fn bound_key(bindings: Seq<BindingView>, action: Action) -> Option<Seq<char>>
    decreases bindings.len(),
{
    if bindings.len() == 0 {
        None
    } else if bindings[0].action == action {
        Some(bindings[0].key)
    } else {
        bound_key(bindings.drop_first(), action)
    }
}

/// The name of an action.
pub open spec fn action_name(action: Action) -> Seq<char> {
    match action {
        Action::MoveUp => "MoveUp"@,
        Action::MoveDown => "MoveDown"@,
        Action::MoveLeft => "MoveLeft"@,
        Action::MoveRight => "MoveRight"@,
        Action::PageUp => "PageUp"@,
        Action::PageDown => "PageDown"@,
        Action::GoToTop => "GoToTop"@,
        Action::GoToEnd => "GoToEnd"@,
        Action::ScrollUp => "ScrollUp"@,
        Action::ScrollDown => "ScrollDown"@,
        Action::Confirm => "Confirm"@,
        Action::Cancel => "Cancel"@,
        Action::Quit => "Quit"@,
        Action::NextTab => "NextTab"@,
        Action::PrevTab => "PrevTab"@,
        Action::Help => "Help"@,
    }
}

impl Action {
    /// The name of this action.
    pub fn name(&self) -> (r: &'static str)
        ensures
            r@ == action_name(*self),
    {
        match self {
            Action::MoveUp => "MoveUp",
            Action::MoveDown => "MoveDown",
            Action::MoveLeft => "MoveLeft",
            Action::MoveRight => "MoveRight",
            Action::PageUp => "PageUp",
            Action::PageDown => "PageDown",
            Action::GoToTop => "GoToTop",
            Action::GoToEnd => "GoToEnd",
            Action::ScrollUp => "ScrollUp",
            Action::ScrollDown => "ScrollDown",
            Action::Confirm => "Confirm",
            Action::Cancel => "Cancel",
            Action::Quit => "Quit",
            Action::NextTab => "NextTab",
            Action::PrevTab => "PrevTab",
            Action::Help => "Help",
        }
    }

    /// The group under which this action is listed.
    pub fn category(&self) -> (r: &'static str)
        ensures
            r@ == match self {
                Action::Confirm | Action::Cancel | Action::Quit | Action::Help => "General"@,
                Action::NextTab | Action::PrevTab => "Tabs"@,
                _ => "Navigation"@,
            },
    {
        match self {
            Action::Confirm | Action::Cancel | Action::Quit | Action::Help => "General",
            Action::NextTab | Action::PrevTab => "Tabs",
            _ => "Navigation",
        }
    }
}

/// Whether one of `bindings` is bound to `action`.
pub open spec fn binds(bindings: Seq<BindingView>, action: Action) -> bool {
    exists|i: int| 0 <= i < bindings.len() && bindings[i].action == action
}

/// A preset with the user's overrides.
#[derive(Debug)]
pub struct Keymap {
    /// The preset underneath.
    pub preset: KeymapPreset,
    /// The user's bindings, which go before those of the preset.
    pub overrides: Vec<KeyBinding>,
}

impl Default for Keymap {
    fn default() -> (r: Self)
        ensures
            r.preset == KeymapPreset::Standard,
            r.overrides@.len() == 0,
    {
        Keymap { preset: KeymapPreset::Standard, overrides: Vec::new() }
    }
}

fn find_action(bindings: &Vec<KeyBinding>, press: KeyPress) -> (r: Option<Action>)
    ensures
        r == bound_action(bindings.deep_view(), press),
{
    let ghost all = bindings.deep_view();
    let mut i: usize = 0;
    assert(all.skip(0) =~= all);
    while i < bindings.len()
        invariant
            i <= bindings.len(),
            all == bindings.deep_view(),
            bound_action(all, press) == bound_action(all.skip(i as int), press),
        decreases bindings.len() - i,
    {
        assert(all.skip(i as int).drop_first() =~= all.skip(i + 1));
        assert(all.skip(i as int)[0] == all[i as int]);
        if bindings[i].matches(press) {
            return Some(bindings[i].action);
        }
        i += 1;
    }
    None
}

fn find_key(bindings: &Vec<KeyBinding>, action: Action) -> (r: Option<String>)
    ensures
        r.deep_view() == bound_key(bindings.deep_view(), action),
        r is Some <==> binds(bindings.deep_view(), action),
{
    let ghost all = bindings.deep_view();
    let mut i: usize = 0;
    assert(all.skip(0) =~= all);
    while i < bindings.len()
        invariant
            i <= bindings.len(),
            all == bindings.deep_view(),
            bound_key(all, action) == bound_key(all.skip(i as int), action),
            forall|j: int| 0 <= j < i ==> all[j].action != action,
        decreases bindings.len() - i,
    {
        assert(all.skip(i as int).drop_first() =~= all.skip(i + 1));
        assert(all.skip(i as int)[0] == all[i as int]);
        if bindings[i].action == action {
            return Some(bindings[i].display());
        }
        i += 1;
    }
    None
}

/// The text that shows the navigation keys of a preset.
pub open spec fn navigation_text(preset: KeymapPreset) -> Seq<char> {
    match preset {
        KeymapPreset::Standard => "\u{2191}\u{2193}"@,
        KeymapPreset::Vim => "j/k"@,
        KeymapPreset::Emacs => "C-n/p"@,
    }
}

/// The text that shows the key to quit or cancel in a preset.
pub open spec fn quit_text(preset: KeymapPreset) -> Seq<char> {
    match preset {
        KeymapPreset::Standard => "q/Esc"@,
        KeymapPreset::Vim => "q/Esc"@,
        KeymapPreset::Emacs => "C-g"@,
    }
}

impl Keymap {
    /// The bindings of this keymap in the order in which they are tried:
    /// the overrides, then the preset.
    pub open spec fn tried(&self) -> Seq<BindingView> {
        self.overrides.deep_view() + preset_bindings(self.preset)
    }

    /// The bindings of this keymap as they are shown: the overrides, then
    /// those of the preset whose action no override is bound to.
    pub open spec fn shown(&self) -> Seq<BindingView> {
        self.overrides.deep_view() + preset_bindings(self.preset).filter(
            |b: BindingView| !binds(self.overrides.deep_view(), b.action),
        )
    }

    /// The action for a key press: that of the first override for it, or
    /// else of the first binding of the preset for it.
    pub fn get_action(&self, press: KeyPress) -> (r: Option<Action>)
        ensures
            r == match bound_action(self.overrides.deep_view(), press) {
                Some(a) => Some(a),
                None => bound_action(preset_bindings(self.preset), press),
            },
    {
        match find_action(&self.overrides, press) {
            Some(a) => Some(a),
            None => find_action(&self.preset.bindings(), press),
        }
    }

    /// All bindings as shown in the help: an override hides the preset's
    /// bindings for the same action.
    pub fn all_bindings(&self) -> (r: Vec<KeyBinding>)
        ensures
            r.deep_view() == self.shown(),
    {
        let mut bindings = self.overrides.clone();
        assert(bindings.deep_view() =~= self.overrides.deep_view());
        let preset = self.preset.bindings();
        let ghost all = preset.deep_view();
        let ghost own = self.overrides.deep_view();
        let ghost free = |b: BindingView| !binds(own, b.action);
        let mut i: usize = 0;
        assert(all.take(0) =~= Seq::<BindingView>::empty());
        assert(bindings.deep_view() =~= own + all.take(0).filter(free));
        while i < preset.len()
            invariant
                i <= preset.len(),
                all == preset.deep_view(),
                own == self.overrides.deep_view(),
                free == |b: BindingView| !binds(own, b.action),
                bindings.deep_view() == own + all.take(i as int).filter(free),
            decreases preset.len() - i,
        {
            proof {
                crate::strings::lemma_filter_next(all, free, i as int);
            }
            let ghost before = bindings.deep_view();
            if find_key(&self.overrides, preset[i].action).is_none() {
                bindings.push(preset[i].clone());
                assert(bindings.deep_view() =~= before.push(all[i as int]));
            }
            i += 1;
        }
        assert(all.take(preset.len() as int) =~= all);
        bindings
    }

    /// The text that shows the navigation keys.
    pub fn navigation_display(&self) -> (r: &'static str)
        ensures
            r@ == navigation_text(self.preset),
    {
        match self.preset {
            KeymapPreset::Standard => "\u{2191}\u{2193}",
            KeymapPreset::Vim => "j/k",
            KeymapPreset::Emacs => "C-n/p",
        }
    }

    /// The text that shows the key to quit or cancel.
    pub fn quit_display(&self) -> (r: &'static str)
        ensures
            r@ == quit_text(self.preset),
    {
        match self.preset {
            KeymapPreset::Standard => "q/Esc",
            KeymapPreset::Vim => "q/Esc",
            KeymapPreset::Emacs => "C-g",
        }
    }

    /// The text that shows the key to confirm.
    pub fn confirm_display(&self) -> (r: &'static str)
        ensures
            r@ == "Enter"@,
    {
        "Enter"
    }

    /// The key shown for `action`: that of the first override bound to it,
    /// or else of the first binding of the preset, or else the name of the
    /// action.
    pub fn get_key_display_for_action(&self, action: Action) -> (r: String)
        ensures
            r@ == match bound_key(self.overrides.deep_view(), action) {
                Some(key) => key,
                None => match bound_key(preset_bindings(self.preset), action) {
                    Some(key) => key,
                    None => action_name(action),
                },
            },
    {
        match find_key(&self.overrides, action) {
            Some(key) => key,
            None => match find_key(&self.preset.bindings(), action) {
                Some(key) => key,
                None => action.name().to_owned(),
            },
        }
    }

    /// The footer for screens with a list to move in.
    pub fn footer_navigation(&self) -> (r: String)
        ensures
            r@ == navigation_text(self.preset) + ": Navigate | "@ + "Enter"@ + ": Select | "@
                + quit_text(self.preset) + ": Back | ?: Help"@,
    {
        let mut r = self.navigation_display().to_owned();
        r.append(": Navigate | ");
        r.append(self.confirm_display());
        r.append(": Select | ");
        r.append(self.quit_display());
        r.append(": Back | ?: Help");
        r
    }
}

} // verus!
