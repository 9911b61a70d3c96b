//! Keys of the keyboard: codes, modifiers and combinations, with their text
//! form.
use crate::text::{
    ascii_lower, concat2, concat3, decimal, folded, format_u64, from_range, is_white, parse_u8,
    parsed_u8, push_text, same, split, split_first, split_on, split_whole, texts, to_chars,
    to_lower, trim, trimmed,
};
use vstd::prelude::*;
use vstd::utf8::is_ascii_chars;

verus! {

/// The modifier keys held down.
#[derive(Debug, Clone, Copy, PartialEq, Eq, Hash, Structural)]
pub struct KeyModifiers {
    pub shift: bool,
    pub control: bool,
    pub alt: bool,
    pub super_key: bool,
    pub hyper: bool,
    pub meta: bool,
}

impl KeyModifiers {
    /// No modifier.
    pub open spec fn spec_none() -> KeyModifiers {
        KeyModifiers {
            shift: false,
            control: false,
            alt: false,
            super_key: false,
            hyper: false,
            meta: false,
        }
    }

    /// The Shift key alone.
    pub open spec fn spec_shift() -> KeyModifiers {
        KeyModifiers { shift: true, ..KeyModifiers::spec_none() }
    }

    /// The Control key alone.
    pub open spec fn spec_control() -> KeyModifiers {
        KeyModifiers { control: true, ..KeyModifiers::spec_none() }
    }

    /// The Alt key alone.
    pub open spec fn spec_alt() -> KeyModifiers {
        KeyModifiers { alt: true, ..KeyModifiers::spec_none() }
    }

    /// No modifier.
    #[verifier::when_used_as_spec(spec_none)]
    pub fn none() -> (r: KeyModifiers)
        ensures
            r == KeyModifiers::spec_none(),
    {
        KeyModifiers {
            shift: false,
            control: false,
            alt: false,
            super_key: false,
            hyper: false,
            meta: false,
        }
    }

    /// The Shift key alone.
    #[verifier::when_used_as_spec(spec_shift)]
    pub fn shift() -> (r: KeyModifiers)
        ensures
            r == KeyModifiers::spec_shift(),
    {
        KeyModifiers {
            shift: true,
            control: false,
            alt: false,
            super_key: false,
            hyper: false,
            meta: false,
        }
    }

    /// The Control key alone.
    #[verifier::when_used_as_spec(spec_control)]
    pub fn control() -> (r: KeyModifiers)
        ensures
            r == KeyModifiers::spec_control(),
    {
        KeyModifiers {
            shift: false,
            control: true,
            alt: false,
            super_key: false,
            hyper: false,
            meta: false,
        }
    }

    /// The Alt key alone.
    #[verifier::when_used_as_spec(spec_alt)]
    pub fn alt() -> (r: KeyModifiers)
        ensures
            r == KeyModifiers::spec_alt(),
    {
        KeyModifiers {
            shift: false,
            control: false,
            alt: true,
            super_key: false,
            hyper: false,
            meta: false,
        }
    }

    /// The modifiers as a number with one bit for each key.
    pub open spec fn spec_bits(self) -> u8 {
        let b = |x: bool, n: int| if x { n } else { 0 };
        (b(self.shift, 1) + b(self.control, 2) + b(self.alt, 4) + b(self.super_key, 8) + b(
            self.hyper,
            16,
        ) + b(self.meta, 32)) as u8
    }

    /// The modifiers as a number: Shift 1, Control 2, Alt 4, Super 8, Hyper 16,
    /// Meta 32.
    pub fn bits(self) -> (r: u8)
        ensures
            r == self.spec_bits(),
            r < 64,
    {
        let mut n: u8 = 0;
        if self.shift {
            n += 1;
        }
        if self.control {
            n += 2;
        }
        if self.alt {
            n += 4;
        }
        if self.super_key {
            n += 8;
        }
        if self.hyper {
            n += 16;
        }
        if self.meta {
            n += 32;
        }
        n
    }
}

/// A media key.
#[derive(Debug, Clone, Copy, PartialEq, Eq, Hash, Structural)]
pub enum MediaKeyCode {
    Play,
    Pause,
    PlayPause,
    Reverse,
    Stop,
    FastForward,
    Rewind,
    TrackNext,
    TrackPrevious,
    Record,
    LowerVolume,
    RaiseVolume,
    MuteVolume,
}

/// A modifier key pressed on its own.
#[derive(Debug, Clone, Copy, PartialEq, Eq, Hash, Structural)]
pub enum ModifierKeyCode {
    LeftShift,
    LeftControl,
    LeftAlt,
    LeftSuper,
    LeftHyper,
    LeftMeta,
    RightShift,
    RightControl,
    RightAlt,
    RightSuper,
    RightHyper,
    RightMeta,
    IsoLevel3Shift,
    IsoLevel5Shift,
}

/// A key.
#[derive(Debug, Clone, Copy, PartialEq, Eq, Hash, Structural)]
pub enum KeyCode {
    Backspace,
    Enter,
    Left,
    Right,
    Up,
    Down,
    Home,
    End,
    PageUp,
    PageDown,
    Tab,
    BackTab,
    Delete,
    Insert,
    F(u8),
    Char(char),
    Null,
    Esc,
    CapsLock,
    ScrollLock,
    NumLock,
    PrintScreen,
    Pause,
    Menu,
    KeypadBegin,
    Media(MediaKeyCode),
    Modifier(ModifierKeyCode),
}

/// A key combination (modifier flags + key code).
#[derive(Debug, Clone, Copy, PartialEq, Eq, Hash, Structural)]
pub struct KeyCombo {
    pub modifiers: KeyModifiers,
    pub code: KeyCode,
}

// ---------------------------------------------------------------------------
// The form that sorting goes by
// ---------------------------------------------------------------------------

/// What the standard library's `Debug` prints for a character, quotes and
/// escapes included.
pub uninterp spec fn char_debug(c: char) -> Seq<char>;

/// `format!("{:?}", c)` on a character. The result is a function of the
/// character alone; which characters are escaped, and how, is left to the
/// standard library.
#[verifier::external_body]
fn debug_char(c: char) -> (r: String)
    ensures
        r@ == char_debug(c),
{
    format!("{:?}", c)
}

/// The name of a media key.
pub open spec fn media_name(m: MediaKeyCode) -> Seq<char> {
    match m {
        MediaKeyCode::Play => "Play"@,
        MediaKeyCode::Pause => "Pause"@,
        MediaKeyCode::PlayPause => "PlayPause"@,
        MediaKeyCode::Reverse => "Reverse"@,
        MediaKeyCode::Stop => "Stop"@,
        MediaKeyCode::FastForward => "FastForward"@,
        MediaKeyCode::Rewind => "Rewind"@,
        MediaKeyCode::TrackNext => "TrackNext"@,
        MediaKeyCode::TrackPrevious => "TrackPrevious"@,
        MediaKeyCode::Record => "Record"@,
        MediaKeyCode::LowerVolume => "LowerVolume"@,
        MediaKeyCode::RaiseVolume => "RaiseVolume"@,
        MediaKeyCode::MuteVolume => "MuteVolume"@,
    }
}

/// The name of a modifier key.
pub open spec fn modifier_name(m: ModifierKeyCode) -> Seq<char> {
    match m {
        ModifierKeyCode::LeftShift => "LeftShift"@,
        ModifierKeyCode::LeftControl => "LeftControl"@,
        ModifierKeyCode::LeftAlt => "LeftAlt"@,
        ModifierKeyCode::LeftSuper => "LeftSuper"@,
        ModifierKeyCode::LeftHyper => "LeftHyper"@,
        ModifierKeyCode::LeftMeta => "LeftMeta"@,
        ModifierKeyCode::RightShift => "RightShift"@,
        ModifierKeyCode::RightControl => "RightControl"@,
        ModifierKeyCode::RightAlt => "RightAlt"@,
        ModifierKeyCode::RightSuper => "RightSuper"@,
        ModifierKeyCode::RightHyper => "RightHyper"@,
        ModifierKeyCode::RightMeta => "RightMeta"@,
        ModifierKeyCode::IsoLevel3Shift => "IsoLevel3Shift"@,
        ModifierKeyCode::IsoLevel5Shift => "IsoLevel5Shift"@,
    }
}

/// The name of a key as its variant spells it, with the payload in brackets.
pub open spec fn code_form(code: KeyCode) -> Seq<char> {
    match code {
        KeyCode::Backspace => "Backspace"@,
        KeyCode::Enter => "Enter"@,
        KeyCode::Left => "Left"@,
        KeyCode::Right => "Right"@,
        KeyCode::Up => "Up"@,
        KeyCode::Down => "Down"@,
        KeyCode::Home => "Home"@,
        KeyCode::End => "End"@,
        KeyCode::PageUp => "PageUp"@,
        KeyCode::PageDown => "PageDown"@,
        KeyCode::Tab => "Tab"@,
        KeyCode::BackTab => "BackTab"@,
        KeyCode::Delete => "Delete"@,
        KeyCode::Insert => "Insert"@,
        KeyCode::F(n) => "F("@ + decimal(n as nat) + ")"@,
        KeyCode::Char(c) => "Char("@ + char_debug(c) + ")"@,
        KeyCode::Null => "Null"@,
        KeyCode::Esc => "Esc"@,
        KeyCode::CapsLock => "CapsLock"@,
        KeyCode::ScrollLock => "ScrollLock"@,
        KeyCode::NumLock => "NumLock"@,
        KeyCode::PrintScreen => "PrintScreen"@,
        KeyCode::Pause => "Pause"@,
        KeyCode::Menu => "Menu"@,
        KeyCode::KeypadBegin => "KeypadBegin"@,
        KeyCode::Media(m) => "Media("@ + media_name(m) + ")"@,
        KeyCode::Modifier(m) => "Modifier("@ + modifier_name(m) + ")"@,
    }
}

fn media_text(m: MediaKeyCode) -> (r: &'static str)
    ensures
        r@ == media_name(m),
{
    match m {
        MediaKeyCode::Play => "Play",
        MediaKeyCode::Pause => "Pause",
        MediaKeyCode::PlayPause => "PlayPause",
        MediaKeyCode::Reverse => "Reverse",
        MediaKeyCode::Stop => "Stop",
        MediaKeyCode::FastForward => "FastForward",
        MediaKeyCode::Rewind => "Rewind",
        MediaKeyCode::TrackNext => "TrackNext",
        MediaKeyCode::TrackPrevious => "TrackPrevious",
        MediaKeyCode::Record => "Record",
        MediaKeyCode::LowerVolume => "LowerVolume",
        MediaKeyCode::RaiseVolume => "RaiseVolume",
        MediaKeyCode::MuteVolume => "MuteVolume",
    }
}

fn modifier_text(m: ModifierKeyCode) -> (r: &'static str)
    ensures
        r@ == modifier_name(m),
{
    match m {
        ModifierKeyCode::LeftShift => "LeftShift",
        ModifierKeyCode::LeftControl => "LeftControl",
        ModifierKeyCode::LeftAlt => "LeftAlt",
        ModifierKeyCode::LeftSuper => "LeftSuper",
        ModifierKeyCode::LeftHyper => "LeftHyper",
        ModifierKeyCode::LeftMeta => "LeftMeta",
        ModifierKeyCode::RightShift => "RightShift",
        ModifierKeyCode::RightControl => "RightControl",
        ModifierKeyCode::RightAlt => "RightAlt",
        ModifierKeyCode::RightSuper => "RightSuper",
        ModifierKeyCode::RightHyper => "RightHyper",
        ModifierKeyCode::RightMeta => "RightMeta",
        ModifierKeyCode::IsoLevel3Shift => "IsoLevel3Shift",
        ModifierKeyCode::IsoLevel5Shift => "IsoLevel5Shift",
    }
}

/// The name of a key as its variant spells it.
fn code_text(code: KeyCode) -> (r: String)
    ensures
        r@ == code_form(code),
{
    match code {
        KeyCode::Backspace => "Backspace".to_string(),
        KeyCode::Enter => "Enter".to_string(),
        KeyCode::Left => "Left".to_string(),
        KeyCode::Right => "Right".to_string(),
        KeyCode::Up => "Up".to_string(),
        KeyCode::Down => "Down".to_string(),
        KeyCode::Home => "Home".to_string(),
        KeyCode::End => "End".to_string(),
        KeyCode::PageUp => "PageUp".to_string(),
        KeyCode::PageDown => "PageDown".to_string(),
        KeyCode::Tab => "Tab".to_string(),
        KeyCode::BackTab => "BackTab".to_string(),
        KeyCode::Delete => "Delete".to_string(),
        KeyCode::Insert => "Insert".to_string(),
        KeyCode::F(n) => concat3("F(", format_u64(n as u64).as_str(), ")"),
        KeyCode::Char(c) => concat3("Char(", debug_char(c).as_str(), ")"),
        KeyCode::Null => "Null".to_string(),
        KeyCode::Esc => "Esc".to_string(),
        KeyCode::CapsLock => "CapsLock".to_string(),
        KeyCode::ScrollLock => "ScrollLock".to_string(),
        KeyCode::NumLock => "NumLock".to_string(),
        KeyCode::PrintScreen => "PrintScreen".to_string(),
        KeyCode::Pause => "Pause".to_string(),
        KeyCode::Menu => "Menu".to_string(),
        KeyCode::KeypadBegin => "KeypadBegin".to_string(),
        KeyCode::Media(m) => concat3("Media(", media_text(m), ")"),
        KeyCode::Modifier(m) => concat3("Modifier(", modifier_text(m), ")"),
    }
}

/// The text by which combinations are put in order: the modifiers as one
/// character, then the name of the key.
pub open spec fn combo_rank(combo: KeyCombo) -> Seq<char> {
    seq![combo.modifiers.spec_bits() as char] + code_form(combo.code)
}

/// Computes the text by which combinations are put in order.
pub fn combo_rank_text(combo: &KeyCombo) -> (r: String)
    ensures
        r@ == combo_rank(*combo),
{
    let mut r = String::new();
    r.push(combo.modifiers.bits() as char);
    assert(r@ =~= seq![combo.modifiers.spec_bits() as char]);
    push_text(&mut r, code_text(combo.code).as_str());
    r
}

// ---------------------------------------------------------------------------
// Formatting
// ---------------------------------------------------------------------------

/// The name under which a key is shown.
pub open spec fn key_name(code: KeyCode) -> Seq<char> {
    match code {
        KeyCode::Char(c) => seq![c],
        KeyCode::Enter => "Enter"@,
        KeyCode::Esc => "Esc"@,
        KeyCode::Backspace => "Backspace"@,
        KeyCode::Tab => "Tab"@,
        KeyCode::BackTab => "Tab"@,
        KeyCode::Delete => "Delete"@,
        KeyCode::Left => "Left"@,
        KeyCode::Right => "Right"@,
        KeyCode::Up => "Up"@,
        KeyCode::Down => "Down"@,
        KeyCode::PageUp => "PgUp"@,
        KeyCode::PageDown => "PgDn"@,
        KeyCode::Home => "Home"@,
        KeyCode::End => "End"@,
        KeyCode::F(n) => "F"@ + decimal(n as nat),
        _ => "?"@,
    }
}

/// The text form of a combination: the modifiers, each with a plus sign, and
/// the name of the key. Shift is left out where the key is a character.
pub open spec fn combo_text(combo: KeyCombo) -> Seq<char> {
    let ctrl = if combo.modifiers.control { "Ctrl+"@ } else { Seq::empty() };
    let alt = if combo.modifiers.alt { "Alt+"@ } else { Seq::empty() };
    let shift = if combo.modifiers.shift && !(combo.code is Char) {
        "Shift+"@
    } else {
        Seq::empty()
    };
    ctrl + alt + shift + key_name(combo.code)
}

/// The text form of a combination in a file: in lower case, but a character as
/// it is.
pub open spec fn file_text(combo: KeyCombo) -> Seq<char> {
    let ctrl = if combo.modifiers.control { "ctrl+"@ } else { Seq::empty() };
    let alt = if combo.modifiers.alt { "alt+"@ } else { Seq::empty() };
    let shift = if combo.modifiers.shift && !(combo.code is Char) {
        "shift+"@
    } else {
        Seq::empty()
    };
    ctrl + alt + shift + match combo.code {
        KeyCode::Char(c) => seq![c],
        _ => folded(key_name(combo.code)),
    }
}

fn key_name_text(code: KeyCode) -> (r: String)
    ensures
        r@ == key_name(code),
{
    match code {
        KeyCode::Char(c) => {
            let mut r = String::new();
            r.push(c);
            assert(r@ =~= seq![c]);
            r
        },
        KeyCode::Enter => "Enter".to_string(),
        KeyCode::Esc => "Esc".to_string(),
        KeyCode::Backspace => "Backspace".to_string(),
        KeyCode::Tab => "Tab".to_string(),
        KeyCode::BackTab => "Tab".to_string(),
        KeyCode::Delete => "Delete".to_string(),
        KeyCode::Left => "Left".to_string(),
        KeyCode::Right => "Right".to_string(),
        KeyCode::Up => "Up".to_string(),
        KeyCode::Down => "Down".to_string(),
        KeyCode::PageUp => "PgUp".to_string(),
        KeyCode::PageDown => "PgDn".to_string(),
        KeyCode::Home => "Home".to_string(),
        KeyCode::End => "End".to_string(),
        KeyCode::F(n) => concat2("F", format_u64(n as u64).as_str()),
        _ => "?".to_string(),
    }
}

/// Formats a key combo for display (e.g., "Ctrl+d", "j", "Shift+Tab").
pub fn format_key_combo(combo: &KeyCombo) -> (r: String)
    ensures
        r@ == combo_text(*combo),
{
    let mut r = String::new();
    if combo.modifiers.control {
        push_text(&mut r, "Ctrl+");
    }
    if combo.modifiers.alt {
        push_text(&mut r, "Alt+");
    }
    let is_char = match combo.code {
        KeyCode::Char(_) => true,
        _ => false,
    };
    if combo.modifiers.shift && !is_char {
        push_text(&mut r, "Shift+");
    }
    push_text(&mut r, key_name_text(combo.code).as_str());
    assert(r@ =~= combo_text(*combo));
    r
}

/// Formats a key combo for a file (e.g., "ctrl+d", "J", "shift+tab").
pub fn format_for_file(combo: &KeyCombo) -> (r: String)
    ensures
        r@ == file_text(*combo),
{
    let mut r = String::new();
    if combo.modifiers.control {
        push_text(&mut r, "ctrl+");
    }
    if combo.modifiers.alt {
        push_text(&mut r, "alt+");
    }
    let name = key_name_text(combo.code);
    match combo.code {
        KeyCode::Char(_) => {
            push_text(&mut r, name.as_str());
        },
        _ => {
            if combo.modifiers.shift {
                push_text(&mut r, "shift+");
            }
            push_text(&mut r, to_lower(name.as_str()).as_str());
        },
    }
    assert(r@ =~= file_text(*combo));
    r
}

// ---------------------------------------------------------------------------
// Parsing
// ---------------------------------------------------------------------------

/// The modifiers that the parts before the last name, in any order, or the
/// first part that names none.
pub open spec fn parsed_modifiers(parts: Seq<Seq<char>>) -> Result<KeyModifiers, Seq<char>>
    decreases parts.len(),
{
    if parts.len() == 0 {
        Ok(KeyModifiers::none())
    } else {
        match parsed_modifiers(parts.drop_last()) {
            Err(e) => Err(e),
            Ok(m) => {
                let name = folded(parts.last());
                if name == "ctrl"@ || name == "control"@ {
                    Ok(KeyModifiers { control: true, ..m })
                } else if name == "alt"@ {
                    Ok(KeyModifiers { alt: true, ..m })
                } else if name == "shift"@ {
                    Ok(KeyModifiers { shift: true, ..m })
                } else {
                    Err("unknown modifier: "@ + parts.last())
                }
            },
        }
    }
}

/// The key that a lower-case name stands for where it needs no modifiers to
/// tell.
pub open spec fn named_key(name: Seq<char>) -> Option<KeyCode> {
    if name == "enter"@ || name == "return"@ {
        Some(KeyCode::Enter)
    } else if name == "esc"@ || name == "escape"@ {
        Some(KeyCode::Esc)
    } else if name == "backspace"@ || name == "bs"@ {
        Some(KeyCode::Backspace)
    } else if name == "delete"@ || name == "del"@ {
        Some(KeyCode::Delete)
    } else if name == "left"@ {
        Some(KeyCode::Left)
    } else if name == "right"@ {
        Some(KeyCode::Right)
    } else if name == "up"@ {
        Some(KeyCode::Up)
    } else if name == "down"@ {
        Some(KeyCode::Down)
    } else if name == "pageup"@ || name == "pgup"@ {
        Some(KeyCode::PageUp)
    } else if name == "pagedown"@ || name == "pgdn"@ || name == "pgdown"@ {
        Some(KeyCode::PageDown)
    } else if name == "home"@ {
        Some(KeyCode::Home)
    } else if name == "end"@ {
        Some(KeyCode::End)
    } else if name == "space"@ {
        Some(KeyCode::Char(' '))
    } else {
        None
    }
}

/// The combination that a key's part and the modifiers before it spell.
/// A single character is the key itself, as it is written; names of keys may be
/// written in any letter case.
pub open spec fn parsed_key(m: KeyModifiers, part: Seq<char>) -> Result<KeyCombo, Seq<char>> {
    let name = folded(part);
    if part.len() == 1 {
        Ok(KeyCombo { modifiers: m, code: KeyCode::Char(part[0]) })
    } else if name == "tab"@ {
        Ok(KeyCombo { modifiers: m, code: if m.shift { KeyCode::BackTab } else { KeyCode::Tab } })
    } else if name == "backtab"@ {
        Ok(KeyCombo { modifiers: KeyModifiers { shift: true, ..m }, code: KeyCode::BackTab })
    } else if named_key(name) is Some {
        Ok(KeyCombo { modifiers: m, code: named_key(name)->0 })
    } else if name.len() > 1 && name[0] == 'f' {
        match parsed_u8(name.drop_first()) {
            Some(n) => Ok(KeyCombo { modifiers: m, code: KeyCode::F(n) }),
            None => Err("bad F-key: "@ + name),
        }
    } else {
        Err("unknown key: "@ + part)
    }
}

/// The combination that a text spells, or what is wrong with it.
pub open spec fn parsed_combo(s: Seq<char>) -> Result<KeyCombo, Seq<char>> {
    let t = trimmed(s);
    if t.len() == 0 {
        Err("empty key string"@)
    } else {
        let parts = split_on(t, '+');
        match parsed_modifiers(parts.drop_last()) {
            Err(e) => Err(e),
            Ok(m) => parsed_key(m, parts.last()),
        }
    }
}

/// The outcome of a parse with its message as text.
pub open spec fn combo_outcome(r: Result<KeyCombo, String>) -> Result<KeyCombo, Seq<char>> {
    match r {
        Ok(c) => Ok(c),
        Err(e) => Err(e@),
    }
}

fn named_key_code(name: &str) -> (r: Option<KeyCode>)
    ensures
        r == named_key(name@),
{
    if same(name, "enter") || same(name, "return") {
        Some(KeyCode::Enter)
    } else if same(name, "esc") || same(name, "escape") {
        Some(KeyCode::Esc)
    } else if same(name, "backspace") || same(name, "bs") {
        Some(KeyCode::Backspace)
    } else if same(name, "delete") || same(name, "del") {
        Some(KeyCode::Delete)
    } else if same(name, "left") {
        Some(KeyCode::Left)
    } else if same(name, "right") {
        Some(KeyCode::Right)
    } else if same(name, "up") {
        Some(KeyCode::Up)
    } else if same(name, "down") {
        Some(KeyCode::Down)
    } else if same(name, "pageup") || same(name, "pgup") {
        Some(KeyCode::PageUp)
    } else if same(name, "pagedown") || same(name, "pgdn") || same(name, "pgdown") {
        Some(KeyCode::PageDown)
    } else if same(name, "home") {
        Some(KeyCode::Home)
    } else if same(name, "end") {
        Some(KeyCode::End)
    } else if same(name, "space") {
        Some(KeyCode::Char(' '))
    } else {
        None
    }
}

fn parse_key(m: KeyModifiers, part: &str) -> (r: Result<KeyCombo, String>)
    ensures
        combo_outcome(r) == parsed_key(m, part@),
{
    let written = to_chars(part);
    if written.len() == 1 {
        return Ok(KeyCombo { modifiers: m, code: KeyCode::Char(written[0]) });
    }
    let name = to_lower(part);
    if same(name.as_str(), "tab") {
        let code = if m.shift {
            KeyCode::BackTab
        } else {
            KeyCode::Tab
        };
        return Ok(KeyCombo { modifiers: m, code });
    }
    if same(name.as_str(), "backtab") {
        let mut shifted = m;
        shifted.shift = true;
        return Ok(KeyCombo { modifiers: shifted, code: KeyCode::BackTab });
    }
    if let Some(code) = named_key_code(name.as_str()) {
        return Ok(KeyCombo { modifiers: m, code });
    }
    let chars = to_chars(name.as_str());
    if chars.len() > 1 && chars[0] == 'f' {
        let digits = from_range(&chars, 1, chars.len());
        assert(digits@ =~= name@.drop_first());
        return match parse_u8(digits.as_str()) {
            Some(n) => Ok(KeyCombo { modifiers: m, code: KeyCode::F(n) }),
            None => Err(concat2("bad F-key: ", name.as_str())),
        };
    }
    Err(concat2("unknown key: ", part))
}

/// Parses a key combo string like "ctrl+d", "j", "shift+enter", "alt+enter".
pub fn parse_key_combo(s: &str) -> (r: Result<KeyCombo, String>)
    ensures
        combo_outcome(r) == parsed_combo(s@),
{
    let t = trim(s);
    if t.as_str().is_empty() {
        return Err("empty key string".to_string());
    }
    let parts = split(t.as_str(), '+');
    let ghost all = split_on(t@, '+');
    let mut m = KeyModifiers::none();
    let mut i: usize = 0;
    assert(all.take(0) =~= Seq::empty());
    while i < parts.len() - 1
        invariant
            0 < parts@.len(),
            i < parts@.len(),
            texts(parts@) == all,
            all == split_on(trimmed(s@), '+'),
            trimmed(s@).len() > 0,
            parsed_modifiers(all.take(i as int)) == Ok::<KeyModifiers, Seq<char>>(m),
        ensures
            i == parts@.len() - 1,
        decreases parts@.len() - i,
    {
        let part = parts[i].as_str();
        let name = to_lower(part);
        assert(part@ == all[i as int]);
        assert(all.take(i + 1).drop_last() =~= all.take(i as int));
        if same(name.as_str(), "ctrl") || same(name.as_str(), "control") {
            m.control = true;
        } else if same(name.as_str(), "alt") {
            m.alt = true;
        } else if same(name.as_str(), "shift") {
            m.shift = true;
        } else {
            let e = concat2("unknown modifier: ", part);
            proof {
                modifiers_error_stays(all.drop_last(), i + 1);
                assert(all.drop_last().take(i + 1) =~= all.take(i + 1));
            }
            return Err(e);
        }
        i += 1;
    }
    assert(all.take(i as int) =~= all.drop_last());
    assert(parts@[i as int]@ == all.last());
    parse_key(m, parts[i].as_str())
}

/// Once a part names no modifier, the parts after it change nothing.
proof fn modifiers_error_stays(parts: Seq<Seq<char>>, n: int)
    requires
        0 <= n <= parts.len(),
        parsed_modifiers(parts.take(n)) is Err,
    ensures
        parsed_modifiers(parts) == parsed_modifiers(parts.take(n)),
    decreases parts.len(),
{
    if n < parts.len() {
        assert(parts.drop_last().take(n) =~= parts.take(n));
        modifiers_error_stays(parts.drop_last(), n);
    } else {
        assert(parts.take(n) =~= parts);
    }
}

// ---------------------------------------------------------------------------
// Reading back what was formatted
// ---------------------------------------------------------------------------

/// A name of a modifier in any letter case: it stands for itself as a part.
spec fn is_modifier_name(s: Seq<char>, name: Seq<char>) -> bool {
    &&& s.len() > 0
    &&& folded(s) == name
    &&& !s.contains('+')
    &&& !is_white(s[0])
}

/// A text that can stand behind modifiers as the name of a key.
spec fn is_key_part(k: Seq<char>) -> bool {
    &&& k.len() > 0
    &&& !k.contains('+')
    &&& !is_white(k[0])
    &&& !is_white(k.last())
}

/// A part that is there or not, with a plus sign behind it.
spec fn part_if(there: bool, name: Seq<char>) -> Seq<char> {
    if there {
        name.push('+')
    } else {
        Seq::empty()
    }
}

/// Modifiers before the name of a key are all read.
proof fn modifiers_read_back(
    m: KeyModifiers,
    c: Seq<char>,
    a: Seq<char>,
    s: Seq<char>,
    k: Seq<char>,
)
    requires
        !m.super_key && !m.hyper && !m.meta,
        is_modifier_name(c, "ctrl"@),
        is_modifier_name(a, "alt"@),
        is_modifier_name(s, "shift"@),
        is_key_part(k),
    ensures
        parsed_combo(part_if(m.control, c) + part_if(m.alt, a) + part_if(m.shift, s) + k)
            == parsed_key(m, k),
{
    reveal_strlit("ctrl");
    reveal_strlit("control");
    reveal_strlit("alt");
    reveal_strlit("shift");
    let t3 = part_if(m.shift, s) + k;
    let t2 = part_if(m.alt, a) + t3;
    let t1 = part_if(m.control, c) + t2;
    assert(t1 =~= part_if(m.control, c) + part_if(m.alt, a) + part_if(m.shift, s) + k);
    assert(t1.len() > 0 && !is_white(t1[0]) && t1.last() == k.last());
    assert(trimmed(t1) == t1);
    let p3 = if m.shift { seq![s] } else { Seq::<Seq<char>>::empty() };
    let p2 = if m.alt { seq![a] } else { Seq::<Seq<char>>::empty() };
    let p1 = if m.control { seq![c] } else { Seq::<Seq<char>>::empty() };
    split_whole(k, '+');
    if m.shift {
        split_first(s, '+', k);
    } else {
        assert(t3 =~= k);
    }
    assert(split_on(t3, '+') =~= p3 + seq![k]);
    if m.alt {
        split_first(a, '+', t3);
    } else {
        assert(t2 =~= t3);
    }
    assert(split_on(t2, '+') =~= p2 + p3 + seq![k]);
    if m.control {
        split_first(c, '+', t2);
    } else {
        assert(t1 =~= t2);
    }
    let parts = split_on(t1, '+');
    assert(parts =~= p1 + p2 + p3 + seq![k]);
    let mods = parts.drop_last();
    assert(mods =~= p1 + p2 + p3);
    assert("ctrl"@.len() == 4 && "control"@.len() == 7);
    assert("alt"@.len() == 3 && "shift"@.len() == 5);
    let none = KeyModifiers::none();
    let m1 = KeyModifiers { control: m.control, ..none };
    let m2 = KeyModifiers { alt: m.alt, ..m1 };
    assert(parsed_modifiers(p1) == Ok::<KeyModifiers, Seq<char>>(m1)) by {
        if m.control {
            assert(p1.drop_last() =~= Seq::<Seq<char>>::empty());
            assert(parsed_modifiers(p1.drop_last()) == Ok::<KeyModifiers, Seq<char>>(none));
            assert(p1.last() == c);
        }
    }
    assert(parsed_modifiers(p1 + p2) == Ok::<KeyModifiers, Seq<char>>(m2)) by {
        if m.alt {
            let p = p1 + p2;
            assert(p.drop_last() =~= p1);
            assert(p.len() > 0 && p.last() == a);
        } else {
            assert(p1 + p2 =~= p1);
        }
    }
    assert(parsed_modifiers(p1 + p2 + p3) == Ok::<KeyModifiers, Seq<char>>(m)) by {
        if m.shift {
            let p = p1 + p2 + p3;
            assert(p.drop_last() =~= p1 + p2);
            assert(p.len() > 0 && p.last() == s);
        } else {
            assert(p1 + p2 + p3 =~= p1 + p2);
        }
    }
    assert(parts.last() == k);
}

/// A key whose name can be read: one with a name of its own, or a character
/// that is shown. The plus sign stands between the parts, so it is none.
pub open spec fn is_readable_key(code: KeyCode) -> bool {
    match code {
        KeyCode::Char(c) => c != '+' && !is_white(c),
        KeyCode::Enter | KeyCode::Esc | KeyCode::Backspace | KeyCode::Tab | KeyCode::BackTab => true,
        KeyCode::Delete | KeyCode::Left | KeyCode::Right | KeyCode::Up | KeyCode::Down => true,
        KeyCode::PageUp | KeyCode::PageDown | KeyCode::Home | KeyCode::End | KeyCode::F(_) => true,
        _ => false,
    }
}

/// A combination whose text form says all of it: no modifiers but Control, Alt
/// and Shift; Shift with the key that goes back, but neither with the one that
/// goes on nor with a character.
pub open spec fn is_readable(combo: KeyCombo) -> bool {
    &&& !combo.modifiers.super_key && !combo.modifiers.hyper && !combo.modifiers.meta
    &&& is_readable_key(combo.code)
    &&& combo.code is BackTab ==> combo.modifiers.shift
    &&& combo.code is Tab || combo.code is Char ==> !combo.modifiers.shift
}

/// How many characters the names of keys have, and with which they start.
proof fn lower_names()
    ensures
        "enter"@.len() == 5 && "enter"@[0] == 'e' && "enter"@[1] == 'n',
        "return"@.len() == 6 && "return"@[0] == 'r' && "return"@[1] == 'e',
        "esc"@.len() == 3 && "esc"@[0] == 'e' && "esc"@[1] == 's',
        "escape"@.len() == 6 && "escape"@[0] == 'e' && "escape"@[1] == 's',
        "backspace"@.len() == 9 && "backspace"@[0] == 'b' && "backspace"@[1] == 'a',
        "bs"@.len() == 2 && "bs"@[0] == 'b' && "bs"@[1] == 's',
        "tab"@.len() == 3 && "tab"@[0] == 't' && "tab"@[1] == 'a',
        "backtab"@.len() == 7 && "backtab"@[0] == 'b' && "backtab"@[1] == 'a',
        "delete"@.len() == 6 && "delete"@[0] == 'd' && "delete"@[1] == 'e',
        "del"@.len() == 3 && "del"@[0] == 'd' && "del"@[1] == 'e',
        "left"@.len() == 4 && "left"@[0] == 'l' && "left"@[1] == 'e',
        "right"@.len() == 5 && "right"@[0] == 'r' && "right"@[1] == 'i',
        "up"@.len() == 2 && "up"@[0] == 'u' && "up"@[1] == 'p',
        "down"@.len() == 4 && "down"@[0] == 'd' && "down"@[1] == 'o',
        "pageup"@.len() == 6 && "pageup"@[0] == 'p' && "pageup"@[1] == 'a',
        "pgup"@.len() == 4 && "pgup"@[0] == 'p' && "pgup"@[1] == 'g',
        "pagedown"@.len() == 8 && "pagedown"@[0] == 'p' && "pagedown"@[1] == 'a',
        "pgdn"@.len() == 4 && "pgdn"@[0] == 'p' && "pgdn"@[1] == 'g',
        "pgdown"@.len() == 6 && "pgdown"@[0] == 'p' && "pgdown"@[1] == 'g',
        "home"@.len() == 4 && "home"@[0] == 'h' && "home"@[1] == 'o',
        "end"@.len() == 3 && "end"@[0] == 'e' && "end"@[1] == 'n',
        "space"@.len() == 5 && "space"@[0] == 's' && "space"@[1] == 'p',
{
    reveal_strlit("enter");
    reveal_strlit("return");
    reveal_strlit("esc");
    reveal_strlit("escape");
    reveal_strlit("backspace");
    reveal_strlit("bs");
    reveal_strlit("tab");
    reveal_strlit("backtab");
    reveal_strlit("delete");
    reveal_strlit("del");
    reveal_strlit("left");
    reveal_strlit("right");
    reveal_strlit("up");
    reveal_strlit("down");
    reveal_strlit("pageup");
    reveal_strlit("pgup");
    reveal_strlit("pagedown");
    reveal_strlit("pgdn");
    reveal_strlit("pgdown");
    reveal_strlit("home");
    reveal_strlit("end");
    reveal_strlit("space");
}

/// The names of keys and modifiers, as they are shown, in lower case.
proof fn shown_names()
    ensures
        folded("Enter"@) == "enter"@ && folded("enter"@) == "enter"@,
        folded("Esc"@) == "esc"@ && folded("esc"@) == "esc"@,
        folded("Backspace"@) == "backspace"@ && folded("backspace"@) == "backspace"@,
        folded("Tab"@) == "tab"@ && folded("tab"@) == "tab"@,
        folded("Delete"@) == "delete"@ && folded("delete"@) == "delete"@,
        folded("Left"@) == "left"@ && folded("left"@) == "left"@,
        folded("Right"@) == "right"@ && folded("right"@) == "right"@,
        folded("Up"@) == "up"@ && folded("up"@) == "up"@,
        folded("Down"@) == "down"@ && folded("down"@) == "down"@,
        folded("PgUp"@) == "pgup"@ && folded("pgup"@) == "pgup"@,
        folded("PgDn"@) == "pgdn"@ && folded("pgdn"@) == "pgdn"@,
        folded("Home"@) == "home"@ && folded("home"@) == "home"@,
        folded("End"@) == "end"@ && folded("end"@) == "end"@,
        folded("Ctrl"@) == "ctrl"@ && folded("ctrl"@) == "ctrl"@,
        folded("Alt"@) == "alt"@ && folded("alt"@) == "alt"@,
        folded("Shift"@) == "shift"@ && folded("shift"@) == "shift"@,
{
    reveal_strlit("Enter");
    reveal_strlit("enter");
    reveal_strlit("Esc");
    reveal_strlit("esc");
    reveal_strlit("Backspace");
    reveal_strlit("backspace");
    reveal_strlit("Tab");
    reveal_strlit("tab");
    reveal_strlit("Delete");
    reveal_strlit("delete");
    reveal_strlit("Left");
    reveal_strlit("left");
    reveal_strlit("Right");
    reveal_strlit("right");
    reveal_strlit("Up");
    reveal_strlit("up");
    reveal_strlit("Down");
    reveal_strlit("down");
    reveal_strlit("PgUp");
    reveal_strlit("pgup");
    reveal_strlit("PgDn");
    reveal_strlit("pgdn");
    reveal_strlit("Home");
    reveal_strlit("home");
    reveal_strlit("End");
    reveal_strlit("end");
    reveal_strlit("Ctrl");
    reveal_strlit("ctrl");
    reveal_strlit("Alt");
    reveal_strlit("alt");
    reveal_strlit("Shift");
    reveal_strlit("shift");
    assert(ascii_lower("Enter"@) =~= "enter"@ && ascii_lower("enter"@) =~= "enter"@);
    assert(ascii_lower("Esc"@) =~= "esc"@ && ascii_lower("esc"@) =~= "esc"@);
    assert(ascii_lower("Backspace"@) =~= "backspace"@ && ascii_lower("backspace"@) =~= "backspace"@);
    assert(ascii_lower("Tab"@) =~= "tab"@ && ascii_lower("tab"@) =~= "tab"@);
    assert(ascii_lower("Delete"@) =~= "delete"@ && ascii_lower("delete"@) =~= "delete"@);
    assert(ascii_lower("Left"@) =~= "left"@ && ascii_lower("left"@) =~= "left"@);
    assert(ascii_lower("Right"@) =~= "right"@ && ascii_lower("right"@) =~= "right"@);
    assert(ascii_lower("Up"@) =~= "up"@ && ascii_lower("up"@) =~= "up"@);
    assert(ascii_lower("Down"@) =~= "down"@ && ascii_lower("down"@) =~= "down"@);
    assert(ascii_lower("PgUp"@) =~= "pgup"@ && ascii_lower("pgup"@) =~= "pgup"@);
    assert(ascii_lower("PgDn"@) =~= "pgdn"@ && ascii_lower("pgdn"@) =~= "pgdn"@);
    assert(ascii_lower("Home"@) =~= "home"@ && ascii_lower("home"@) =~= "home"@);
    assert(ascii_lower("End"@) =~= "end"@ && ascii_lower("end"@) =~= "end"@);
    assert(ascii_lower("Ctrl"@) =~= "ctrl"@ && ascii_lower("ctrl"@) =~= "ctrl"@);
    assert(ascii_lower("Alt"@) =~= "alt"@ && ascii_lower("alt"@) =~= "alt"@);
    assert(ascii_lower("Shift"@) =~= "shift"@ && ascii_lower("shift"@) =~= "shift"@);
}

/// The name under which a readable key is shown is read as that key.
proof fn key_names_read_back(combo: KeyCombo)
    requires
        is_readable(combo),
    ensures
        is_key_part(key_name(combo.code)),
        parsed_key(combo.modifiers, key_name(combo.code)) == Ok::<KeyCombo, Seq<char>>(combo),
{
    reveal_strlit("Enter");
    reveal_strlit("Esc");
    reveal_strlit("Backspace");
    reveal_strlit("Tab");
    reveal_strlit("Delete");
    reveal_strlit("Left");
    reveal_strlit("Right");
    reveal_strlit("Up");
    reveal_strlit("Down");
    reveal_strlit("PgUp");
    reveal_strlit("PgDn");
    reveal_strlit("Home");
    reveal_strlit("End");
    reveal_strlit("F");
    lower_names();
    shown_names();
    let k = key_name(combo.code);
    match combo.code {
        KeyCode::Char(c) => {
            assert(k == seq![c]);
            assert(k[0] == c && k.last() == c);
        },
        KeyCode::F(n) => {
            let d = decimal(n as nat);
            crate::text::decimal_spells(n as nat);
            assert(k =~= "F"@ + d);
            assert(k[0] == 'F');
            assert forall|i: int| 0 <= i < k.len() implies k[i] == 'F' || '0' <= #[trigger] k[i] <= '9' by {
                if i > 0 {
                    assert(k[i] == d[i - 1]);
                    assert(crate::text::digit_value(d[i - 1]) is Some);
                }
            }
            let name = seq!['f'] + d;
            assert(is_ascii_chars(k));
            assert forall|i: int| 0 <= i < k.len() implies #[trigger] ascii_lower(k)[i] == name[i] by {
                if i > 0 {
                    assert(k[i] == d[i - 1]);
                    assert(crate::text::digit_value(d[i - 1]) is Some);
                }
            }
            assert(ascii_lower(k) =~= name);
            assert(name.drop_first() =~= d);
            assert(name[0] == 'f');
            assert(crate::text::digit_value(d[0]) is Some);
            assert(crate::text::digit_value(d.last()) is Some);
            assert(name != "tab"@ && name != "backtab"@);
            assert(named_key(name) is None);
        },
        _ => {},
    }
}

/// The name of a key that is no character is read in lower case too.
proof fn file_names_read_back(combo: KeyCombo)
    requires
        is_readable(combo),
        !(combo.code is Char),
    ensures
        is_key_part(folded(key_name(combo.code))),
        parsed_key(combo.modifiers, folded(key_name(combo.code))) == Ok::<KeyCombo, Seq<char>>(
            combo,
        ),
{
    let m = combo.modifiers;
    let k = key_name(combo.code);
    key_names_read_back(combo);
    names_are_ascii(combo.code);
    let l = ascii_lower(k);
    assert forall|i: int| 0 <= i < l.len() implies l[i] != '+' && (is_white(l[i]) ==> is_white(k[i]))
        && l[i] <= '\u{7f}' && !('A' <= #[trigger] l[i] <= 'Z') by {
        assert(k[i] <= '\u{7f}');
        assert(k.contains(k[i]));
    }
    assert(is_ascii_chars(l));
    assert(ascii_lower(l) =~= l);
}

/// The names of keys that are no characters are ASCII, and no single letters.
proof fn names_are_ascii(code: KeyCode)
    requires
        is_readable_key(code),
        !(code is Char),
    ensures
        is_ascii_chars(key_name(code)),
        key_name(code).len() > 1,
{
    reveal_strlit("Enter");
    reveal_strlit("Esc");
    reveal_strlit("Backspace");
    reveal_strlit("Tab");
    reveal_strlit("Delete");
    reveal_strlit("Left");
    reveal_strlit("Right");
    reveal_strlit("Up");
    reveal_strlit("Down");
    reveal_strlit("PgUp");
    reveal_strlit("PgDn");
    reveal_strlit("Home");
    reveal_strlit("End");
    reveal_strlit("F");
    if let KeyCode::F(n) = code {
        let d = decimal(n as nat);
        let k = key_name(code);
        crate::text::decimal_spells(n as nat);
        assert(k =~= "F"@ + d);
        assert forall|i: int| 0 <= i < k.len() implies '\0' <= #[trigger] k[i] <= '\u{7f}' by {
            if i > 0 {
                assert(k[i] == d[i - 1]);
                assert(crate::text::digit_value(d[i - 1]) is Some);
            }
        }
    }
}

/// The names of the modifiers are names of modifiers, in either letter case.
proof fn modifier_names()
    ensures
        is_modifier_name("Ctrl"@, "ctrl"@) && is_modifier_name("ctrl"@, "ctrl"@),
        is_modifier_name("Alt"@, "alt"@) && is_modifier_name("alt"@, "alt"@),
        is_modifier_name("Shift"@, "shift"@) && is_modifier_name("shift"@, "shift"@),
        "Ctrl+"@ == "Ctrl"@.push('+') && "ctrl+"@ == "ctrl"@.push('+'),
        "Alt+"@ == "Alt"@.push('+') && "alt+"@ == "alt"@.push('+'),
        "Shift+"@ == "Shift"@.push('+') && "shift+"@ == "shift"@.push('+'),
{
    shown_names();
    reveal_strlit("Ctrl");
    reveal_strlit("Alt");
    reveal_strlit("Shift");
    reveal_strlit("Ctrl+");
    reveal_strlit("Alt+");
    reveal_strlit("Shift+");
    reveal_strlit("ctrl");
    reveal_strlit("alt");
    reveal_strlit("shift");
    reveal_strlit("ctrl+");
    reveal_strlit("alt+");
    reveal_strlit("shift+");
    assert("Ctrl+"@ =~= "Ctrl"@.push('+') && "ctrl+"@ =~= "ctrl"@.push('+'));
    assert("Alt+"@ =~= "Alt"@.push('+') && "alt+"@ =~= "alt"@.push('+'));
    assert("Shift+"@ =~= "Shift"@.push('+') && "shift+"@ =~= "shift"@.push('+'));
}

/// What a combination is shown as is read as that combination, and so is what is
/// written of it to a file.
pub proof fn formatted_combos_read_back(combo: KeyCombo)
    requires
        is_readable(combo),
    ensures
        parsed_combo(combo_text(combo)) == Ok::<KeyCombo, Seq<char>>(combo),
        parsed_combo(file_text(combo)) == Ok::<KeyCombo, Seq<char>>(combo),
{
    let m = combo.modifiers;
    let k = key_name(combo.code);
    key_names_read_back(combo);
    modifier_names();
    assert(combo_text(combo) == part_if(m.control, "Ctrl"@) + part_if(m.alt, "Alt"@) + part_if(
        m.shift,
        "Shift"@,
    ) + k);
    modifiers_read_back(m, "Ctrl"@, "Alt"@, "Shift"@, k);
    let l = match combo.code {
        KeyCode::Char(c) => seq![c],
        _ => folded(k),
    };
    if !(combo.code is Char) {
        file_names_read_back(combo);
    }
    assert(file_text(combo) == part_if(m.control, "ctrl"@) + part_if(m.alt, "alt"@) + part_if(
        m.shift,
        "shift"@,
    ) + l);
    modifiers_read_back(m, "ctrl"@, "alt"@, "shift"@, l);
}

impl DeepView for KeyCombo {
    type V = KeyCombo;

    open spec fn deep_view(&self) -> KeyCombo {
        *self
    }
}

} // verus!
