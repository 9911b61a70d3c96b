//! The text of a bindings file: action names, sections and their lines.
use crate::keybindings::{
    action_index, action_name, all_actions, name_of, with_combos, BindingMode, KeyAction,
    KeyBindingOverrides, KeyBindings, KeyMap,
};
use crate::keys::{
    file_text, format_for_file, formatted_combos_read_back, is_readable, parse_key_combo,
    parsed_combo, KeyCombo,
};
use crate::text::{concat2, concat3, push_text, same, texts};
use vstd::prelude::*;

verus! {

// ---------------------------------------------------------------------------
// Action names
// ---------------------------------------------------------------------------

/// The text that `serde_json` reads from a JSON string literal with the given
/// characters between its quotes, if it accepts the literal.
pub uninterp spec fn json_unquoted(s: Seq<char>) -> Option<Seq<char>>;

/// A character that stands for itself in a JSON string literal.
pub open spec fn json_plain(c: char) -> bool {
    c != '"' && c != '\\' && c >= ' '
}

/// Every character of the text stands for itself in a JSON string literal.
pub open spec fn all_plain(s: Seq<char>) -> bool {
    forall|i: int| 0 <= i < s.len() ==> json_plain(#[trigger] s[i])
}

/// `serde_json::from_str` on a text put between double quotes, read as a
/// string. The result depends on the text alone; a text without quotes,
/// backslashes and control characters is read as it stands. What escapes stand
/// for is left unsaid.
#[verifier::external_body]
fn json_unquote(s: &str) -> (r: Option<String>)
    ensures
        match r {
            Some(t) => json_unquoted(s@) == Some(t@),
            None => json_unquoted(s@) is None,
        },
        all_plain(s@) ==> r is Some && r->0@ == s@,
{
    serde_json::from_str::<String>(&format!("\"{s}\"")).ok()
}

/// The action with a name.
pub open spec fn action_named(name: Seq<char>) -> Option<KeyAction> {
    if exists|a: KeyAction| name_of(a) == name {
        Some(choose|a: KeyAction| name_of(a) == name)
    } else {
        None
    }
}

/// What the characters between the quotes of a JSON string literal stand for:
/// themselves where all are plain, else what `serde_json` reads.
pub open spec fn unquoted(s: Seq<char>) -> Option<Seq<char>> {
    if all_plain(s) {
        Some(s)
    } else {
        json_unquoted(s)
    }
}

/// The action that a key of a bindings file names.
pub open spec fn action_of_key(key: Seq<char>) -> Option<KeyAction> {
    match unquoted(key) {
        Some(name) => action_named(name),
        None => None,
    }
}

/// What tells the name of an action apart from every other: its length and
/// some of its characters.
spec fn name_mark(action: KeyAction) -> (int, char, char) {
    match action {
        KeyAction::Quit => (4, 'q', ' '),
        KeyAction::NextConversation => (17, 'n', 'o'),
        KeyAction::PrevConversation => (17, 'p', 'o'),
        KeyAction::ResizeSidebarLeft => (19, 'r', '_'),
        KeyAction::ResizeSidebarRight => (20, 'r', '_'),
        KeyAction::PageScrollUp => (14, 'p', 'c'),
        KeyAction::PageScrollDown => (16, 'p', 'c'),
        KeyAction::ScrollUp => (9, 's', '_'),
        KeyAction::ScrollDown => (11, 's', '_'),
        KeyAction::FocusNextMessage => (18, 'f', 'n'),
        KeyAction::FocusPrevMessage => (18, 'f', 'p'),
        KeyAction::HalfPageDown => (14, 'h', 'a'),
        KeyAction::HalfPageUp => (12, 'h', 'a'),
        KeyAction::ScrollToTop => (13, 's', '_'),
        KeyAction::ScrollToBottom => (16, 's', '_'),
        KeyAction::InsertAtCursor => (16, 'i', '_'),
        KeyAction::InsertAfterCursor => (19, 'i', '_'),
        KeyAction::InsertLineStart => (17, 'i', '_'),
        KeyAction::InsertLineEnd => (15, 'i', '_'),
        KeyAction::OpenLineBelow => (15, 'o', 'i'),
        KeyAction::CursorLeft => (11, 'c', '_'),
        KeyAction::CursorRight => (12, 'c', '_'),
        KeyAction::LineStart => (10, 'l', 't'),
        KeyAction::LineEnd => (8, 'l', 'n'),
        KeyAction::WordForward => (12, 'w', 'o'),
        KeyAction::WordBack => (9, 'w', 'a'),
        KeyAction::DeleteChar => (11, 'd', '_'),
        KeyAction::DeleteToEnd => (13, 'd', '_'),
        KeyAction::StartSearch => (12, 's', 's'),
        KeyAction::ClearInput => (11, 'c', 'i'),
        KeyAction::CopyMessage => (12, 'c', 'e'),
        KeyAction::CopyAllMessages => (17, 'c', 'l'),
        KeyAction::React => (5, 'r', ' '),
        KeyAction::Quote => (5, 'q', ' '),
        KeyAction::EditMessage => (12, 'e', 'e'),
        KeyAction::ForwardMessage => (15, 'f', 'd'),
        KeyAction::DeleteMessage => (14, 'd', '_'),
        KeyAction::NextSearchResult => (18, 'n', 'e'),
        KeyAction::PrevSearchResult => (18, 'p', 'e'),
        KeyAction::OpenActionMenu => (16, 'o', 'c'),
        KeyAction::PinMessage => (11, 'p', 's'),
        KeyAction::JumpToQuote => (13, 'j', 'o'),
        KeyAction::JumpBack => (9, 'j', 'a'),
        KeyAction::SidebarSearch => (14, 's', 'r'),
        KeyAction::ExitInsert => (11, 'e', 'n'),
        KeyAction::SendMessage => (12, 's', 'e'),
        KeyAction::InsertNewline => (14, 'i', '_'),
        KeyAction::DeleteWordBack => (16, 'd', '_'),
    }
}

spec fn char_at(s: Seq<char>, i: int) -> char {
    if i < s.len() {
        s[i]
    } else {
        ' '
    }
}

spec fn mark_of(s: Seq<char>) -> (int, char, char) {
    (s.len() as int, char_at(s, 0), char_at(s, 6))
}

proof fn name_has_mark(action: KeyAction)
    ensures
        mark_of(name_of(action)) == name_mark(action),
        all_plain(name_of(action)),
{
    match action {
        KeyAction::Quit => {
            reveal_strlit("quit");
        },
        KeyAction::NextConversation => {
            reveal_strlit("next_conversation");
        },
        KeyAction::PrevConversation => {
            reveal_strlit("prev_conversation");
        },
        KeyAction::ResizeSidebarLeft => {
            reveal_strlit("resize_sidebar_left");
        },
        KeyAction::ResizeSidebarRight => {
            reveal_strlit("resize_sidebar_right");
        },
        KeyAction::PageScrollUp => {
            reveal_strlit("page_scroll_up");
        },
        KeyAction::PageScrollDown => {
            reveal_strlit("page_scroll_down");
        },
        KeyAction::ScrollUp => {
            reveal_strlit("scroll_up");
        },
        KeyAction::ScrollDown => {
            reveal_strlit("scroll_down");
        },
        KeyAction::FocusNextMessage => {
            reveal_strlit("focus_next_message");
        },
        KeyAction::FocusPrevMessage => {
            reveal_strlit("focus_prev_message");
        },
        KeyAction::HalfPageDown => {
            reveal_strlit("half_page_down");
        },
        KeyAction::HalfPageUp => {
            reveal_strlit("half_page_up");
        },
        KeyAction::ScrollToTop => {
            reveal_strlit("scroll_to_top");
        },
        KeyAction::ScrollToBottom => {
            reveal_strlit("scroll_to_bottom");
        },
        KeyAction::InsertAtCursor => {
            reveal_strlit("insert_at_cursor");
        },
        KeyAction::InsertAfterCursor => {
            reveal_strlit("insert_after_cursor");
        },
        KeyAction::InsertLineStart => {
            reveal_strlit("insert_line_start");
        },
        KeyAction::InsertLineEnd => {
            reveal_strlit("insert_line_end");
        },
        KeyAction::OpenLineBelow => {
            reveal_strlit("open_line_below");
        },
        KeyAction::CursorLeft => {
            reveal_strlit("cursor_left");
        },
        KeyAction::CursorRight => {
            reveal_strlit("cursor_right");
        },
        KeyAction::LineStart => {
            reveal_strlit("line_start");
        },
        KeyAction::LineEnd => {
            reveal_strlit("line_end");
        },
        KeyAction::WordForward => {
            reveal_strlit("word_forward");
        },
        KeyAction::WordBack => {
            reveal_strlit("word_back");
        },
        KeyAction::DeleteChar => {
            reveal_strlit("delete_char");
        },
        KeyAction::DeleteToEnd => {
            reveal_strlit("delete_to_end");
        },
        KeyAction::StartSearch => {
            reveal_strlit("start_search");
        },
        KeyAction::ClearInput => {
            reveal_strlit("clear_input");
        },
        KeyAction::CopyMessage => {
            reveal_strlit("copy_message");
        },
        KeyAction::CopyAllMessages => {
            reveal_strlit("copy_all_messages");
        },
        KeyAction::React => {
            reveal_strlit("react");
        },
        KeyAction::Quote => {
            reveal_strlit("quote");
        },
        KeyAction::EditMessage => {
            reveal_strlit("edit_message");
        },
        KeyAction::ForwardMessage => {
            reveal_strlit("forward_message");
        },
        KeyAction::DeleteMessage => {
            reveal_strlit("delete_message");
        },
        KeyAction::NextSearchResult => {
            reveal_strlit("next_search_result");
        },
        KeyAction::PrevSearchResult => {
            reveal_strlit("prev_search_result");
        },
        KeyAction::OpenActionMenu => {
            reveal_strlit("open_action_menu");
        },
        KeyAction::PinMessage => {
            reveal_strlit("pin_message");
        },
        KeyAction::JumpToQuote => {
            reveal_strlit("jump_to_quote");
        },
        KeyAction::JumpBack => {
            reveal_strlit("jump_back");
        },
        KeyAction::SidebarSearch => {
            reveal_strlit("sidebar_search");
        },
        KeyAction::ExitInsert => {
            reveal_strlit("exit_insert");
        },
        KeyAction::SendMessage => {
            reveal_strlit("send_message");
        },
        KeyAction::InsertNewline => {
            reveal_strlit("insert_newline");
        },
        KeyAction::DeleteWordBack => {
            reveal_strlit("delete_word_back");
        },
    }
}

/// Actions with the same name are the same.
proof fn names_differ(a: KeyAction, b: KeyAction)
    requires
        name_of(a) == name_of(b),
    ensures
        a == b,
{
    name_has_mark(a);
    name_has_mark(b);
}

/// Reading the name of an action gives that action.
pub proof fn action_named_by_its_name(action: KeyAction)
    ensures
        action_named(name_of(action)) == Some(action),
{
    let b = choose|b: KeyAction| name_of(b) == name_of(action);
    assert(name_of(b) == name_of(action));
    names_differ(action, b);
}

/// Finds the action that a key of a bindings file names.
pub fn action_from_key(key: &str) -> (r: Option<KeyAction>)
    ensures
        r == action_of_key(key@),
{
    let name = match json_unquote(key) {
        Some(name) => name,
        None => return None,
    };
    let actions = all_actions();
    let mut i: usize = 0;
    while i < actions.len()
        invariant
            i <= actions@.len(),
            unquoted(key@) == Some(name@),
            forall|k: int| 0 <= k < i ==> name_of(#[trigger] actions@[k]) != name@,
        decreases actions@.len() - i,
    {
        if same(action_name(actions[i]), name.as_str()) {
            proof {
                action_named_by_its_name(actions@[i as int]);
            }
            return Some(actions[i]);
        }
        i += 1;
    }
    proof {
        if exists|a: KeyAction| name_of(a) == name@ {
            let a = choose|a: KeyAction| name_of(a) == name@;
            assert(actions@[action_index(a)] == a);
        }
    }
    None
}

// ---------------------------------------------------------------------------
// Reading
// ---------------------------------------------------------------------------

/// One line of a section: the action's key and the combinations it is given.
pub struct KeyLine {
    pub key: String,
    pub combos: Vec<String>,
}

/// The combinations that a list of texts spells, or what is wrong with the
/// first that spells none.
pub open spec fn parsed_combos(l: Seq<Seq<char>>) -> Result<Seq<KeyCombo>, Seq<char>>
    decreases l.len(),
{
    if l.len() == 0 {
        Ok(Seq::empty())
    } else {
        match parsed_combos(l.drop_last()) {
            Err(e) => Err(e),
            Ok(front) => match parsed_combo(l.last()) {
                Err(e) => Err(e),
                Ok(c) => Ok(front.push(c)),
            },
        }
    }
}

/// What a line says: its action and its combinations.
pub open spec fn parsed_line(line: KeyLine) -> Result<(KeyAction, Seq<KeyCombo>), Seq<char>> {
    match action_of_key(line.key@) {
        None => Err("unknown action: "@ + line.key@),
        Some(a) => match parsed_combos(texts(line.combos@)) {
            Err(e) => Err(e),
            Ok(l) => Ok((a, l)),
        },
    }
}

/// What the lines of a section say, or what is wrong with the first bad one.
pub open spec fn parsed_lines(lines: Seq<KeyLine>) -> Result<
    Seq<(KeyAction, Seq<KeyCombo>)>,
    Seq<char>,
>
    decreases lines.len(),
{
    if lines.len() == 0 {
        Ok(Seq::empty())
    } else {
        match parsed_lines(lines.drop_last()) {
            Err(e) => Err(e),
            Ok(front) => match parsed_line(lines.last()) {
                Err(e) => Err(e),
                Ok(l) => Ok(front.push(l)),
            },
        }
    }
}

/// Overrides with their combinations as sequences.
pub open spec fn plain_overrides(l: Seq<(KeyAction, Vec<KeyCombo>)>) -> Seq<
    (KeyAction, Seq<KeyCombo>),
> {
    l.map_values(|p: (KeyAction, Vec<KeyCombo>)| (p.0, p.1@))
}

proof fn parsed_combos_error_stays(l: Seq<Seq<char>>, n: int)
    requires
        0 <= n <= l.len(),
        parsed_combos(l.take(n)) is Err,
    ensures
        parsed_combos(l) == parsed_combos(l.take(n)),
    decreases l.len(),
{
    if n < l.len() {
        assert(l.drop_last().take(n) =~= l.take(n));
        parsed_combos_error_stays(l.drop_last(), n);
    } else {
        assert(l.take(n) =~= l);
    }
}

proof fn parsed_lines_error_stays(l: Seq<KeyLine>, n: int)
    requires
        0 <= n <= l.len(),
        parsed_lines(l.take(n)) is Err,
    ensures
        parsed_lines(l) == parsed_lines(l.take(n)),
    decreases l.len(),
{
    if n < l.len() {
        assert(l.drop_last().take(n) =~= l.take(n));
        parsed_lines_error_stays(l.drop_last(), n);
    } else {
        assert(l.take(n) =~= l);
    }
}

/// Parses a list of combinations.
fn parse_combos(l: &Vec<String>) -> (r: Result<Vec<KeyCombo>, String>)
    ensures
        match r {
            Ok(v) => parsed_combos(texts(l@)) == Ok::<Seq<KeyCombo>, Seq<char>>(v@),
            Err(e) => parsed_combos(texts(l@)) == Err::<Seq<KeyCombo>, Seq<char>>(e@),
        },
{
    let ghost all = texts(l@);
    let mut v: Vec<KeyCombo> = Vec::new();
    let mut i: usize = 0;
    assert(all.take(0) =~= Seq::empty());
    while i < l.len()
        invariant
            i <= l@.len(),
            all == texts(l@),
            parsed_combos(all.take(i as int)) == Ok::<Seq<KeyCombo>, Seq<char>>(v@),
        decreases l@.len() - i,
    {
        assert(all.take(i + 1).drop_last() =~= all.take(i as int));
        assert(all.take(i + 1).last() == l@[i as int]@);
        match parse_key_combo(l[i].as_str()) {
            Ok(c) => v.push(c),
            Err(e) => {
                proof {
                    parsed_combos_error_stays(all, i + 1);
                }
                return Err(e);
            },
        }
        i += 1;
    }
    assert(all.take(all.len() as int) =~= all);
    Ok(v)
}

/// Parses the lines of a section.
pub fn parse_lines(lines: &Vec<KeyLine>) -> (r: Result<Vec<(KeyAction, Vec<KeyCombo>)>, String>)
    ensures
        match r {
            Ok(v) => parsed_lines(lines@) == Ok::<Seq<(KeyAction, Seq<KeyCombo>)>, Seq<char>>(
                plain_overrides(v@),
            ),
            Err(e) => parsed_lines(lines@) == Err::<Seq<(KeyAction, Seq<KeyCombo>)>, Seq<char>>(e@),
        },
{
    let mut v: Vec<(KeyAction, Vec<KeyCombo>)> = Vec::new();
    let mut i: usize = 0;
    assert(lines@.take(0) =~= Seq::empty());
    assert(plain_overrides(v@) =~= Seq::empty());
    while i < lines.len()
        invariant
            i <= lines@.len(),
            parsed_lines(lines@.take(i as int)) == Ok::<
                Seq<(KeyAction, Seq<KeyCombo>)>,
                Seq<char>,
            >(plain_overrides(v@)),
        decreases lines@.len() - i,
    {
        assert(lines@.take(i + 1).drop_last() =~= lines@.take(i as int));
        assert(lines@.take(i + 1).last() == lines@[i as int]);
        let line = &lines[i];
        let action = match action_from_key(line.key.as_str()) {
            Some(a) => a,
            None => {
                let e = concat2("unknown action: ", line.key.as_str());
                proof {
                    parsed_lines_error_stays(lines@, i + 1);
                }
                return Err(e);
            },
        };
        match parse_combos(&line.combos) {
            Ok(combos) => {
                let ghost had = plain_overrides(v@);
                v.push((action, combos));
                assert(plain_overrides(v@) =~= had.push((action, combos@)));
            },
            Err(e) => {
                proof {
                    parsed_lines_error_stays(lines@, i + 1);
                }
                return Err(e);
            },
        }
        i += 1;
    }
    assert(lines@.take(lines@.len() as int) =~= lines@);
    Ok(v)
}

/// The bindings of a map with those that the lines of a section add.
pub open spec fn with_lines(
    m: Map<KeyCombo, KeyAction>,
    lines: Seq<(KeyAction, Seq<KeyCombo>)>,
) -> Map<KeyCombo, KeyAction>
    decreases lines.len(),
{
    if lines.len() == 0 {
        m
    } else {
        with_combos(with_lines(m, lines.drop_last()), lines.last().1, lines.last().0)
    }
}

/// Builds the bindings of one mode of a profile from its section.
pub fn parse_toml_section(lines: &Vec<KeyLine>) -> (r: Result<KeyMap, String>)
    ensures
        match r {
            Ok(m) => parsed_lines(lines@) is Ok && m@ == with_lines(
                Map::empty(),
                parsed_lines(lines@)->Ok_0,
            ),
            Err(e) => parsed_lines(lines@) == Err::<Seq<(KeyAction, Seq<KeyCombo>)>, Seq<char>>(e@),
        },
{
    let parsed = parse_lines(lines)?;
    let ghost all = plain_overrides(parsed@);
    let mut map = KeyMap::new();
    let mut i: usize = 0;
    assert(all.take(0) =~= Seq::empty());
    while i < parsed.len()
        invariant
            i <= parsed@.len(),
            all == plain_overrides(parsed@),
            map@ == with_lines(Map::empty(), all.take(i as int)),
        decreases parsed@.len() - i,
    {
        assert(all.take(i + 1).drop_last() =~= all.take(i as int));
        let action = parsed[i].0;
        let combos = &parsed[i].1;
        let ghost start = map@;
        let mut k: usize = 0;
        assert(combos@.take(0) =~= Seq::empty());
        while k < combos.len()
            invariant
                k <= combos@.len(),
                map@ == with_combos(start, combos@.take(k as int), action),
            decreases combos@.len() - k,
        {
            map.insert(combos[k], action);
            k += 1;
            assert(combos@.take(k as int).drop_last() =~= combos@.take(k - 1));
        }
        assert(combos@.take(combos@.len() as int) =~= combos@);
        i += 1;
    }
    assert(all.take(all.len() as int) =~= all);
    Ok(map)
}

/// A file of bindings as its sections: the name of the profile, where it gives
/// one, and the lines of each mode.
pub struct KeyFile {
    pub name: String,
    pub global: Vec<KeyLine>,
    pub normal: Vec<KeyLine>,
    pub insert: Vec<KeyLine>,
}

impl KeyFile {
    /// What is wrong with the file: the error of the first section that has
    /// one.
    pub open spec fn error(self) -> Option<Seq<char>> {
        match parsed_lines(self.global@) {
            Err(e) => Some(e),
            Ok(_) => match parsed_lines(self.normal@) {
                Err(e) => Some(e),
                Ok(_) => match parsed_lines(self.insert@) {
                    Err(e) => Some(e),
                    Ok(_) => None,
                },
            },
        }
    }

    /// The lines of a mode.
    pub open spec fn lines(self, mode: BindingMode) -> Seq<KeyLine> {
        match mode {
            BindingMode::Global => self.global@,
            BindingMode::Normal => self.normal@,
            BindingMode::Insert => self.insert@,
        }
    }
}

/// Builds a custom profile from the sections of its file.
pub fn parse_profile(file: KeyFile) -> (r: Result<KeyBindings, String>)
    ensures
        match r {
            Ok(kb) => file.error() is None && kb.profile_name == file.name
                && forall|mode: BindingMode| #[trigger]
                kb.map_of(mode) == with_lines(
                    Map::empty(),
                    parsed_lines(file.lines(mode))->Ok_0,
                ),
            Err(e) => file.error() == Some(e@),
        },
{
    let global = match parse_toml_section(&file.global) {
        Ok(m) => m,
        Err(e) => return Err(e),
    };
    let normal = match parse_toml_section(&file.normal) {
        Ok(m) => m,
        Err(e) => return Err(e),
    };
    let insert = match parse_toml_section(&file.insert) {
        Ok(m) => m,
        Err(e) => return Err(e),
    };
    Ok(KeyBindings { profile_name: file.name, global, normal, insert })
}

/// Builds overrides from the sections of their file.
pub fn parse_overrides(file: &KeyFile) -> (r: Result<KeyBindingOverrides, String>)
    ensures
        match r {
            Ok(o) => file.error() is None && forall|mode: BindingMode|
                parsed_lines(#[trigger] file.lines(mode)) == Ok::<
                    Seq<(KeyAction, Seq<KeyCombo>)>,
                    Seq<char>,
                >(plain_overrides(o.of(mode))),
            Err(e) => file.error() == Some(e@),
        },
{
    let global = match parse_lines(&file.global) {
        Ok(l) => l,
        Err(e) => return Err(e),
    };
    let normal = match parse_lines(&file.normal) {
        Ok(l) => l,
        Err(e) => return Err(e),
    };
    let insert = match parse_lines(&file.insert) {
        Ok(l) => l,
        Err(e) => return Err(e),
    };
    Ok(KeyBindingOverrides { global, normal, insert })
}

// ---------------------------------------------------------------------------
// Writing
// ---------------------------------------------------------------------------

/// A combination in a file, in quotes.
pub open spec fn quoted_combo(c: KeyCombo) -> Seq<char> {
    "\""@ + file_text(c) + "\""@
}

/// Texts with a separator between them.
pub open spec fn joined(l: Seq<Seq<char>>, sep: Seq<char>) -> Seq<char>
    decreases l.len(),
{
    if l.len() == 0 {
        Seq::empty()
    } else if l.len() == 1 {
        l[0]
    } else {
        joined(l.drop_last(), sep) + sep + l.last()
    }
}

/// The value of a line: one combination alone, or a list in brackets.
pub open spec fn combos_value(l: Seq<KeyCombo>) -> Seq<char> {
    if l.len() == 1 {
        quoted_combo(l[0])
    } else {
        "["@ + joined(l.map_values(|c: KeyCombo| quoted_combo(c)), ", "@) + "]"@
    }
}

/// A line of a file.
pub open spec fn line_text(p: (KeyAction, Vec<KeyCombo>)) -> Seq<char> {
    name_of(p.0) + " = "@ + combos_value(p.1@)
}

/// The lines of a section.
pub open spec fn section_text(l: Seq<(KeyAction, Vec<KeyCombo>)>) -> Seq<char> {
    joined(l.map_values(|p: (KeyAction, Vec<KeyCombo>)| line_text(p)), "\n"@)
}

/// A file's text with one more section, if that section has lines. Sections
/// are set apart by an empty line.
pub open spec fn with_section(
    content: Seq<char>,
    header: Seq<char>,
    l: Seq<(KeyAction, Vec<KeyCombo>)>,
) -> Seq<char> {
    if l.len() == 0 {
        content
    } else {
        content + (if content.len() == 0 {
            Seq::empty()
        } else {
            "\n"@
        }) + header + section_text(l) + "\n"@
    }
}

/// The text of an overrides file.
pub open spec fn overrides_text(o: KeyBindingOverrides) -> Seq<char> {
    with_section(
        with_section(
            with_section(Seq::empty(), "[global]\n"@, o.global@),
            "[normal]\n"@,
            o.normal@,
        ),
        "[insert]\n"@,
        o.insert@,
    )
}

/// Joins texts with a separator between them.
pub fn join(l: &Vec<String>, sep: &str) -> (r: String)
    ensures
        r@ == joined(texts(l@), sep@),
{
    let ghost all = texts(l@);
    let mut r = String::new();
    let mut i: usize = 0;
    assert(all.take(0) =~= Seq::empty());
    while i < l.len()
        invariant
            i <= l@.len(),
            all == texts(l@),
            r@ == joined(all.take(i as int), sep@),
        decreases l@.len() - i,
    {
        if i > 0 {
            push_text(&mut r, sep);
        }
        push_text(&mut r, l[i].as_str());
        i += 1;
        assert(all.take(i as int).drop_last() =~= all.take(i - 1));
        assert(all.take(i as int).last() == l@[i - 1]@);
        if i == 1 {
            assert(r@ =~= all.take(1)[0]);
        }
    }
    assert(all.take(all.len() as int) =~= all);
    r
}

fn quote_combo(c: &KeyCombo) -> (r: String)
    ensures
        r@ == quoted_combo(*c),
{
    concat3("\"", format_for_file(c).as_str(), "\"")
}

fn combos_to_toml(l: &Vec<KeyCombo>) -> (r: String)
    ensures
        r@ == combos_value(l@),
{
    if l.len() == 1 {
        return quote_combo(&l[0]);
    }
    let mut keys: Vec<String> = Vec::new();
    let ghost want = l@.map_values(|c: KeyCombo| quoted_combo(c));
    let mut i: usize = 0;
    assert(texts(keys@) =~= want.take(0));
    while i < l.len()
        invariant
            i <= l@.len(),
            want == l@.map_values(|c: KeyCombo| quoted_combo(c)),
            texts(keys@) == want.take(i as int),
        decreases l@.len() - i,
    {
        let ghost had = texts(keys@);
        keys.push(quote_combo(&l[i]));
        i += 1;
        assert(texts(keys@) =~= had.push(quoted_combo(l@[i - 1])));
        assert(want.take(i as int) =~= had.push(want[i - 1]));
    }
    assert(want.take(want.len() as int) =~= want);
    concat3("[", join(&keys, ", ").as_str(), "]")
}

fn section_to_toml(l: &Vec<(KeyAction, Vec<KeyCombo>)>) -> (r: String)
    ensures
        r@ == section_text(l@),
{
    let mut lines: Vec<String> = Vec::new();
    let ghost want = l@.map_values(|p: (KeyAction, Vec<KeyCombo>)| line_text(p));
    let mut i: usize = 0;
    assert(texts(lines@) =~= want.take(0));
    while i < l.len()
        invariant
            i <= l@.len(),
            want == l@.map_values(|p: (KeyAction, Vec<KeyCombo>)| line_text(p)),
            texts(lines@) == want.take(i as int),
        decreases l@.len() - i,
    {
        let ghost had = texts(lines@);
        lines.push(
            concat3(action_name(l[i].0), " = ", combos_to_toml(&l[i].1).as_str()),
        );
        i += 1;
        assert(texts(lines@) =~= had.push(line_text(l@[i - 1])));
        assert(want.take(i as int) =~= had.push(want[i - 1]));
    }
    assert(want.take(want.len() as int) =~= want);
    join(&lines, "\n")
}

fn add_section(content: &mut String, header: &str, l: &Vec<(KeyAction, Vec<KeyCombo>)>)
    ensures
        final(content)@ == with_section(old(content)@, header@, l@),
{
    if l.len() > 0 {
        let ghost start = content@;
        if !content.as_str().is_empty() {
            push_text(content, "\n");
        } else {
            assert(content@ =~= start + Seq::empty());
        }
        push_text(content, header);
        push_text(content, section_to_toml(l).as_str());
        push_text(content, "\n");
    }
}

/// The text of an overrides file.
pub fn overrides_to_toml(overrides: &KeyBindingOverrides) -> (r: String)
    ensures
        r@ == overrides_text(*overrides),
{
    let mut content = String::new();
    add_section(&mut content, "[global]\n", &overrides.global);
    add_section(&mut content, "[normal]\n", &overrides.normal);
    add_section(&mut content, "[insert]\n", &overrides.insert);
    content
}

// ---------------------------------------------------------------------------
// Reading back what was written
// ---------------------------------------------------------------------------

/// What a list of combinations is written as.
pub open spec fn written_combos(l: Seq<KeyCombo>) -> Seq<Seq<char>> {
    l.map_values(|c: KeyCombo| file_text(c))
}

/// A line that says what was written of an override.
pub open spec fn says(line: KeyLine, p: (KeyAction, Vec<KeyCombo>)) -> bool {
    &&& line.key@ == name_of(p.0)
    &&& texts(line.combos@) == written_combos(p.1@)
}

/// Combinations that a file can hold.
pub open spec fn all_readable(l: Seq<KeyCombo>) -> bool {
    forall|i: int| 0 <= i < l.len() ==> is_readable(#[trigger] l[i])
}

proof fn written_combos_read_back(l: Seq<KeyCombo>)
    requires
        all_readable(l),
    ensures
        parsed_combos(written_combos(l)) == Ok::<Seq<KeyCombo>, Seq<char>>(l),
    decreases l.len(),
{
    let w = written_combos(l);
    if l.len() == 0 {
        assert(l =~= Seq::empty());
    } else {
        assert forall|i: int| 0 <= i < l.drop_last().len() implies is_readable(
            #[trigger] l.drop_last()[i],
        ) by {
            assert(l.drop_last()[i] == l[i]);
        }
        written_combos_read_back(l.drop_last());
        assert(w.drop_last() =~= written_combos(l.drop_last()));
        assert(w.last() == file_text(l.last()));
        assert(l[l.len() - 1] == l.last());
        formatted_combos_read_back(l.last());
        assert(l.drop_last().push(l.last()) =~= l);
    }
}

/// The lines of a section that was written are read as the overrides that were
/// written.
pub proof fn written_lines_read_back(l: Seq<(KeyAction, Vec<KeyCombo>)>, lines: Seq<KeyLine>)
    requires
        lines.len() == l.len(),
        forall|i: int| 0 <= i < l.len() ==> says(#[trigger] lines[i], l[i]),
        forall|i: int| 0 <= i < l.len() ==> all_readable((#[trigger] l[i]).1@),
    ensures
        parsed_lines(lines) == Ok::<Seq<(KeyAction, Seq<KeyCombo>)>, Seq<char>>(plain_overrides(l)),
    decreases l.len(),
{
    let want = plain_overrides(l);
    if l.len() == 0 {
        assert(want =~= Seq::empty());
    } else {
        assert forall|i: int| 0 <= i < l.drop_last().len() implies says(
            #[trigger] lines.drop_last()[i],
            l.drop_last()[i],
        ) by {
            assert(says(lines[i], l[i]));
        }
        assert forall|i: int| 0 <= i < l.drop_last().len() implies all_readable(
            (#[trigger] l.drop_last()[i]).1@,
        ) by {
            assert(all_readable(l[i].1@));
        }
        written_lines_read_back(l.drop_last(), lines.drop_last());
        let p = l.last();
        assert(says(lines[l.len() - 1], l[l.len() - 1]));
        assert(all_readable(l[l.len() - 1].1@));
        name_has_mark(p.0);
        action_named_by_its_name(p.0);
        written_combos_read_back(p.1@);
        assert(want =~= plain_overrides(l.drop_last()).push((p.0, p.1@)));
    }
}

} // verus!
