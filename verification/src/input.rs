//! What a line of input asks for: commands, their arguments, durations.
use crate::text::{
    concat2, concat3, decimal, decimal_spells, digit_value, find_char, find_first, folded,
    folded_fixed, format_i64, from_range, is_white, parse_i64, parsed_int, same, signed_decimal,
    texts, to_chars, to_lower, trim, trimmed,
};
use vstd::prelude::*;
use vstd::utf8::is_ascii_chars;

verus! {

// ---------------------------------------------------------------------------
// Commands
// ---------------------------------------------------------------------------

/// Metadata for a slash command (used for autocomplete + help)
pub struct CommandInfo {
    pub name: &'static str,
    pub alias: &'static str,
    pub args: &'static str,
    pub description: &'static str,
}

/// A row of the command table: name, alias, arguments and description.
pub struct CommandRow {
    pub name: Seq<char>,
    pub alias: Seq<char>,
    pub args: Seq<char>,
    pub description: Seq<char>,
}

impl View for CommandInfo {
    type V = CommandRow;

    open spec fn view(&self) -> CommandRow {
        CommandRow {
            name: self.name@,
            alias: self.alias@,
            args: self.args@,
            description: self.description@,
        }
    }
}

/// The command table.
pub open spec fn command_rows() -> Seq<CommandRow> {
    seq![
        CommandRow {
            name: "/join"@,
            alias: "/j"@,
            args: "<name>"@,
            description: "Switch to a conversation"@,
        },
        CommandRow {
            name: "/part"@,
            alias: "/p"@,
            args: ""@,
            description: "Leave current conversation"@,
        },
        CommandRow { name: "/sidebar"@, alias: "/sb"@, args: ""@, description: "Toggle sidebar"@ },
        CommandRow {
            name: "/bell"@,
            alias: "/notify"@,
            args: "[type]"@,
            description: "Toggle notifications (direct/group)"@,
        },
        CommandRow {
            name: "/mute"@,
            alias: ""@,
            args: "[dur]"@,
            description: "Mute/unmute current chat"@,
        },
        CommandRow {
            name: "/block"@,
            alias: ""@,
            args: ""@,
            description: "Block current contact/group"@,
        },
        CommandRow {
            name: "/unblock"@,
            alias: ""@,
            args: ""@,
            description: "Unblock current contact/group"@,
        },
        CommandRow { name: "/attach"@, alias: "/a"@, args: ""@, description: "Attach a file"@ },
        CommandRow {
            name: "/search"@,
            alias: "/s"@,
            args: "<query>"@,
            description: "Search messages"@,
        },
        CommandRow { name: "/contacts"@, alias: "/c"@, args: ""@, description: "Browse contacts"@ },
        CommandRow { name: "/settings"@, alias: ""@, args: ""@, description: "Open settings"@ },
        CommandRow {
            name: "/disappearing"@,
            alias: "/dm"@,
            args: "<duration>"@,
            description: "Set disappearing timer (off/30s/5m/1h/1d/1w)"@,
        },
        CommandRow { name: "/group"@, alias: "/g"@, args: ""@, description: "Group management"@ },
        CommandRow { name: "/theme"@, alias: "/t"@, args: ""@, description: "Change color theme"@ },
        CommandRow {
            name: "/poll"@,
            alias: ""@,
            args: "\"question\" \"opt1\" \"opt2\" [--single]"@,
            description: "Create a poll"@,
        },
        CommandRow {
            name: "/verify"@,
            alias: "/v"@,
            args: ""@,
            description: "Verify contact identity"@,
        },
        CommandRow {
            name: "/profile"@,
            alias: ""@,
            args: ""@,
            description: "Edit your Signal profile"@,
        },
        CommandRow { name: "/about"@, alias: ""@, args: ""@, description: "About siggy"@ },
        CommandRow { name: "/help"@, alias: "/h"@, args: ""@, description: "Show help"@ },
        CommandRow { name: "/quit"@, alias: "/q"@, args: ""@, description: "Exit siggy"@ },
    ]
}

/// The rows of a list of commands.
pub open spec fn rows_of(l: Seq<CommandInfo>) -> Seq<CommandRow> {
    l.map_values(|c: CommandInfo| c@)
}

/// All commands, in the order in which they are listed.
pub fn commands() -> (r: Vec<CommandInfo>)
    ensures
        rows_of(r@) == command_rows(),
{
    let r = vec![
        CommandInfo {
            name: "/join",
            alias: "/j",
            args: "<name>",
            description: "Switch to a conversation",
        },
        CommandInfo {
            name: "/part",
            alias: "/p",
            args: "",
            description: "Leave current conversation",
        },
        CommandInfo { name: "/sidebar", alias: "/sb", args: "", description: "Toggle sidebar" },
        CommandInfo {
            name: "/bell",
            alias: "/notify",
            args: "[type]",
            description: "Toggle notifications (direct/group)",
        },
        CommandInfo {
            name: "/mute",
            alias: "",
            args: "[dur]",
            description: "Mute/unmute current chat",
        },
        CommandInfo {
            name: "/block",
            alias: "",
            args: "",
            description: "Block current contact/group",
        },
        CommandInfo {
            name: "/unblock",
            alias: "",
            args: "",
            description: "Unblock current contact/group",
        },
        CommandInfo { name: "/attach", alias: "/a", args: "", description: "Attach a file" },
        CommandInfo {
            name: "/search",
            alias: "/s",
            args: "<query>",
            description: "Search messages",
        },
        CommandInfo { name: "/contacts", alias: "/c", args: "", description: "Browse contacts" },
        CommandInfo { name: "/settings", alias: "", args: "", description: "Open settings" },
        CommandInfo {
            name: "/disappearing",
            alias: "/dm",
            args: "<duration>",
            description: "Set disappearing timer (off/30s/5m/1h/1d/1w)",
        },
        CommandInfo { name: "/group", alias: "/g", args: "", description: "Group management" },
        CommandInfo { name: "/theme", alias: "/t", args: "", description: "Change color theme" },
        CommandInfo {
            name: "/poll",
            alias: "",
            args: "\"question\" \"opt1\" \"opt2\" [--single]",
            description: "Create a poll",
        },
        CommandInfo {
            name: "/verify",
            alias: "/v",
            args: "",
            description: "Verify contact identity",
        },
        CommandInfo {
            name: "/profile",
            alias: "",
            args: "",
            description: "Edit your Signal profile",
        },
        CommandInfo { name: "/about", alias: "", args: "", description: "About siggy" },
        CommandInfo { name: "/help", alias: "/h", args: "", description: "Show help" },
        CommandInfo { name: "/quit", alias: "/q", args: "", description: "Exit siggy" },
    ];
    assert(rows_of(r@) =~= command_rows());
    r
}

/// Parsed user input: either a command or plain text to send
#[derive(Debug, PartialEq)]
pub enum InputAction {
    /// Send text to the current conversation
    SendText(String),
    /// Switch to a conversation by name/number
    Join(String),
    /// Leave current conversation (go back to no selection)
    Part,
    /// Quit the application
    Quit,
    /// Toggle sidebar visibility
    ToggleSidebar,
    /// Toggle terminal bell notifications (None = both, Some("direct"/"group") = specific)
    ToggleBell(Option<String>),
    /// Mute/unmute the current conversation
    ToggleMute,
    /// Mute the current conversation for a while (raw duration string)
    MuteFor(String),
    /// Block the current contact/group
    Block,
    /// Unblock the current contact/group
    Unblock,
    /// Show help text
    Help,
    /// Open settings overlay
    Settings,
    /// Open contacts overlay
    Contacts,
    /// Open file browser to attach a file
    Attach,
    /// Search messages in current (or all) conversations
    Search(String),
    /// Set disappearing message timer (raw duration string)
    SetDisappearing(String),
    /// Open group management menu
    Group,
    /// Open theme picker
    Theme,
    /// Create a poll
    Poll { question: String, options: Vec<String>, allow_multiple: bool },
    /// Show identity verification overlay
    Verify,
    /// Edit Signal profile
    Profile,
    /// Show about overlay
    About,
    /// Open keybindings overlay
    Keybindings,
    /// Open the emoji picker with a search text
    Emoji(String),
    /// Paste the clipboard
    Paste,
    /// Write the current conversation, or its last messages, to a file
    Export(Option<usize>),
    /// Unknown command
    Unknown(String),
}

/// What a line of input asks for, with its texts as sequences.
pub enum InputForm {
    SendText(Seq<char>),
    Join(Seq<char>),
    Part,
    Quit,
    ToggleSidebar,
    ToggleBell(Option<Seq<char>>),
    ToggleMute,
    MuteFor(Seq<char>),
    Block,
    Unblock,
    Help,
    Settings,
    Contacts,
    Attach,
    Search(Seq<char>),
    SetDisappearing(Seq<char>),
    Group,
    Theme,
    Poll { question: Seq<char>, options: Seq<Seq<char>>, allow_multiple: bool },
    Verify,
    Profile,
    About,
    Keybindings,
    Emoji(Seq<char>),
    Paste,
    Export(Option<usize>),
    Unknown(Seq<char>),
}

impl View for InputAction {
    type V = InputForm;

    open spec fn view(&self) -> InputForm {
        match self {
            InputAction::SendText(s) => InputForm::SendText(s@),
            InputAction::Join(s) => InputForm::Join(s@),
            InputAction::Part => InputForm::Part,
            InputAction::Quit => InputForm::Quit,
            InputAction::ToggleSidebar => InputForm::ToggleSidebar,
            InputAction::ToggleBell(o) => InputForm::ToggleBell(
                match o {
                    Some(s) => Some(s@),
                    None => None,
                },
            ),
            InputAction::ToggleMute => InputForm::ToggleMute,
            InputAction::MuteFor(s) => InputForm::MuteFor(s@),
            InputAction::Block => InputForm::Block,
            InputAction::Unblock => InputForm::Unblock,
            InputAction::Help => InputForm::Help,
            InputAction::Settings => InputForm::Settings,
            InputAction::Contacts => InputForm::Contacts,
            InputAction::Attach => InputForm::Attach,
            InputAction::Search(s) => InputForm::Search(s@),
            InputAction::SetDisappearing(s) => InputForm::SetDisappearing(s@),
            InputAction::Group => InputForm::Group,
            InputAction::Theme => InputForm::Theme,
            InputAction::Poll { question, options, allow_multiple } => InputForm::Poll {
                question: question@,
                options: texts(options@),
                allow_multiple: *allow_multiple,
            },
            InputAction::Verify => InputForm::Verify,
            InputAction::Profile => InputForm::Profile,
            InputAction::About => InputForm::About,
            InputAction::Keybindings => InputForm::Keybindings,
            InputAction::Emoji(s) => InputForm::Emoji(s@),
            InputAction::Paste => InputForm::Paste,
            InputAction::Export(n) => InputForm::Export(*n),
            InputAction::Unknown(s) => InputForm::Unknown(s@),
        }
    }
}

// ---------------------------------------------------------------------------
// Poll arguments
// ---------------------------------------------------------------------------

/// What stands between quotes, with `\\` taking the next character as it is,
/// and what follows the closing quote. A missing closing quote is as good as
/// one at the end.
pub open spec fn quoted(s: Seq<char>) -> (Seq<char>, Seq<char>)
    decreases s.len(),
{
    if s.len() == 0 {
        (Seq::empty(), Seq::empty())
    } else if s[0] == '"' {
        (Seq::empty(), s.drop_first())
    } else if s[0] == '\\' {
        if s.len() > 1 {
            let (text, rest) = quoted(s.skip(2));
            (seq![s[1]] + text, rest)
        } else {
            (Seq::empty(), Seq::empty())
        }
    } else {
        let (text, rest) = quoted(s.drop_first());
        (seq![s[0]] + text, rest)
    }
}

/// The number of characters before the first white space.
pub open spec fn word_len(s: Seq<char>) -> nat
    decreases s.len(),
{
    if s.len() == 0 || is_white(s[0]) {
        0
    } else {
        1 + word_len(s.drop_first())
    }
}

/// What follows a quoted stretch is no longer than what it stood in.
pub proof fn quoted_rest_is_shorter(s: Seq<char>)
    ensures
        quoted(s).1.len() <= s.len(),
    decreases s.len(),
{
    if s.len() > 0 && s[0] != '"' {
        if s[0] == '\\' {
            if s.len() > 1 {
                quoted_rest_is_shorter(s.skip(2));
            }
        } else {
            quoted_rest_is_shorter(s.drop_first());
        }
    }
}

/// A word is no longer than the text that it begins.
pub proof fn word_len_bound(s: Seq<char>)
    ensures
        word_len(s) <= s.len(),
        s.len() > 0 && !is_white(s[0]) ==> word_len(s) > 0,
    decreases s.len(),
{
    if s.len() > 0 && !is_white(s[0]) {
        word_len_bound(s.drop_first());
    }
}

/// An argument: its text, and whether it was quoted.
pub struct Token {
    pub text: Seq<char>,
    pub quoted: bool,
}

/// The arguments in a text: quoted strings and words.
pub open spec fn tokens(s: Seq<char>) -> Seq<Token>
    decreases s.len(),
{
    if s.len() == 0 {
        Seq::empty()
    } else if is_white(s[0]) {
        tokens(s.drop_first())
    } else if s[0] == '"' {
        let (text, rest) = quoted(s.drop_first());
        proof {
            quoted_rest_is_shorter(s.drop_first());
        }
        seq![Token { text, quoted: true }] + tokens(rest)
    } else {
        let n = word_len(s) as int;
        proof {
            word_len_bound(s);
        }
        seq![Token { text: s.take(n), quoted: false }] + tokens(s.skip(n))
    }
}

/// An argument is the flag for single-choice polls.
pub open spec fn is_single_flag(t: Token) -> bool {
    !t.quoted && t.text == "--single"@
}

/// The texts of the arguments other than the flag.
pub open spec fn poll_parts(l: Seq<Token>) -> Seq<Seq<char>>
    decreases l.len(),
{
    if l.len() == 0 {
        Seq::empty()
    } else if is_single_flag(l.last()) {
        poll_parts(l.drop_last())
    } else {
        poll_parts(l.drop_last()).push(l.last().text)
    }
}

/// No argument is the flag.
pub open spec fn no_flag(l: Seq<Token>) -> bool {
    forall|i: int| 0 <= i < l.len() ==> !is_single_flag(#[trigger] l[i])
}

/// The question, the options and whether several may be chosen; none where
/// there is no question with two options.
pub open spec fn parsed_poll(s: Seq<char>) -> Option<(Seq<char>, Seq<Seq<char>>, bool)> {
    let parts = poll_parts(tokens(s));
    if parts.len() < 3 {
        None
    } else {
        Some((parts[0], parts.drop_first(), no_flag(tokens(s))))
    }
}

/// Reads a quoted string that starts at `from`, behind its opening quote.
fn read_quoted(s: &Vec<char>, from: usize) -> (r: (String, usize))
    requires
        from <= s@.len(),
    ensures
        from <= r.1 <= s@.len(),
        quoted(s@.skip(from as int)) == (r.0@, s@.skip(r.1 as int)),
{
    let mut text = String::new();
    let mut i: usize = from;
    let ghost whole = quoted(s@.skip(from as int));
    assert(text@ + whole.0 =~= whole.0);
    while i < s.len()
        invariant
            from <= i <= s@.len(),
            whole == quoted(s@.skip(from as int)),
            whole.0 == text@ + quoted(s@.skip(i as int)).0,
            whole.1 == quoted(s@.skip(i as int)).1,
        decreases s@.len() - i,
    {
        let c = s[i];
        let ghost rest = s@.skip(i as int);
        assert(rest[0] == c);
        assert(rest.drop_first() =~= s@.skip(i + 1));
        if c == '"' {
            assert(text@ + Seq::<char>::empty() =~= text@);
            return (text, i + 1);
        }
        if c == '\\' {
            if s.len() - i > 1 {
                assert(rest.skip(2) =~= s@.skip(i + 2));
                assert(rest[1] == s@[i + 1]);
                let ghost had = text@;
                text.push(s[i + 1]);
                i += 2;
                assert(had + (seq![rest[1]] + quoted(s@.skip(i as int)).0) =~= text@ + quoted(
                    s@.skip(i as int),
                ).0);
            } else {
                assert(text@ + Seq::<char>::empty() =~= text@);
                i += 1;
                assert(s@.skip(i as int) =~= Seq::<char>::empty());
            }
        } else {
            let ghost had = text@;
            text.push(c);
            i += 1;
            assert(had + (seq![c] + quoted(s@.skip(i as int)).0) =~= text@ + quoted(
                s@.skip(i as int),
            ).0);
        }
    }
    assert(s@.skip(i as int) =~= Seq::<char>::empty());
    assert(text@ + Seq::<char>::empty() =~= text@);
    (text, i)
}

/// Reads a word that starts at `from`.
fn read_word(s: &Vec<char>, from: usize) -> (r: (String, usize))
    requires
        from <= s@.len(),
    ensures
        from <= r.1 <= s@.len(),
        r.1 - from == word_len(s@.skip(from as int)),
        r.0@ == s@.skip(from as int).take(r.1 - from),
{
    let mut i: usize = from;
    while i < s.len() && !s[i].is_whitespace()
        invariant
            from <= i <= s@.len(),
            word_len(s@.skip(from as int)) == (i - from) + word_len(s@.skip(i as int)),
        decreases s@.len() - i,
    {
        assert(s@.skip(i as int)[0] == s@[i as int]);
        assert(s@.skip(i as int).drop_first() =~= s@.skip(i + 1));
        i += 1;
    }
    if i < s.len() {
        assert(s@.skip(i as int)[0] == s@[i as int]);
    }
    assert(s@.subrange(from as int, i as int) =~= s@.skip(from as int).take(i - from));
    (from_range(s, from, i), i)
}

proof fn poll_parts_push(l: Seq<Token>, t: Token)
    ensures
        poll_parts(l.push(t)) == if is_single_flag(t) {
            poll_parts(l)
        } else {
            poll_parts(l).push(t.text)
        },
        no_flag(l.push(t)) == (no_flag(l) && !is_single_flag(t)),
{
    let m = l.push(t);
    assert(m.drop_last() =~= l);
    assert(m[l.len() as int] == t);
    if no_flag(m) {
        assert forall|i: int| 0 <= i < l.len() implies !is_single_flag(#[trigger] l[i]) by {
            assert(m[i] == l[i]);
        }
    }
}

/// Parse `/poll` arguments: extract quoted strings and `--single` flag.
/// Returns (question, options, allow_multiple) or None on parse failure.
pub fn parse_poll_args(input: &str) -> (r: Option<(String, Vec<String>, bool)>)
    ensures
        match r {
            Some((q, o, m)) => parsed_poll(input@) == Some((q@, texts(o@), m)),
            None => parsed_poll(input@) is None,
        },
{
    let s = to_chars(input);
    let mut parts: Vec<String> = Vec::new();
    let mut allow_multiple = true;
    let mut i: usize = 0;
    let ghost all = tokens(input@);
    let ghost mut seen: Seq<Token> = Seq::empty();
    assert(s@.skip(0) =~= s@);
    assert(seen + all =~= all);
    assert(texts(parts@) =~= poll_parts(seen));
    while i < s.len()
        invariant
            i <= s@.len(),
            s@ == input@,
            all == tokens(input@),
            all == seen + tokens(s@.skip(i as int)),
            texts(parts@) == poll_parts(seen),
            allow_multiple == no_flag(seen),
        decreases s@.len() - i,
    {
        let c = s[i];
        let ghost rest = s@.skip(i as int);
        assert(rest[0] == c);
        assert(rest.drop_first() =~= s@.skip(i + 1));
        if c.is_whitespace() {
            i += 1;
        } else if c == '"' {
            let (text, next) = read_quoted(&s, i + 1);
            let ghost t = Token { text: text@, quoted: true };
            proof {
                poll_parts_push(seen, t);
                assert(seen + (seq![t] + tokens(s@.skip(next as int))) =~= seen.push(t) + tokens(
                    s@.skip(next as int),
                ));
                seen = seen.push(t);
            }
            let ghost had = texts(parts@);
            parts.push(text);
            assert(texts(parts@) =~= had.push(text@));
            i = next;
        } else {
            proof {
                word_len_bound(rest);
            }
            let (text, next) = read_word(&s, i);
            let ghost t = Token { text: text@, quoted: false };
            proof {
                poll_parts_push(seen, t);
                assert(rest.skip(next - i) =~= s@.skip(next as int));
                assert(seen + (seq![t] + tokens(s@.skip(next as int))) =~= seen.push(t) + tokens(
                    s@.skip(next as int),
                ));
                seen = seen.push(t);
            }
            if same(text.as_str(), "--single") {
                allow_multiple = false;
            } else {
                let ghost had = texts(parts@);
                parts.push(text);
                assert(texts(parts@) =~= had.push(text@));
            }
            i = next;
        }
    }
    assert(s@.skip(i as int) =~= Seq::<char>::empty());
    assert(seen =~= all);
    if parts.len() < 3 {
        return None;
    }
    let ghost had = texts(parts@);
    let question = parts.remove(0);
    assert(texts(parts@) =~= had.drop_first());
    Some((question, parts, allow_multiple))
}

// ---------------------------------------------------------------------------
// Lines of input
// ---------------------------------------------------------------------------

/// What a command with its argument asks for.
pub open spec fn parsed_command(cmd: Seq<char>, arg: Seq<char>) -> InputForm {
    if cmd == "/join"@ || cmd == "/j"@ {
        if arg.len() == 0 {
            InputForm::Unknown("/join requires a contact or group name"@)
        } else {
            InputForm::Join(arg)
        }
    } else if cmd == "/part"@ || cmd == "/p"@ {
        InputForm::Part
    } else if cmd == "/quit"@ || cmd == "/q"@ {
        InputForm::Quit
    } else if cmd == "/sidebar"@ || cmd == "/sb"@ {
        InputForm::ToggleSidebar
    } else if cmd == "/bell"@ || cmd == "/notify"@ {
        InputForm::ToggleBell(if arg.len() == 0 { None } else { Some(arg) })
    } else if cmd == "/mute"@ {
        if arg.len() == 0 {
            InputForm::ToggleMute
        } else {
            InputForm::MuteFor(arg)
        }
    } else if cmd == "/block"@ {
        InputForm::Block
    } else if cmd == "/unblock"@ {
        InputForm::Unblock
    } else if cmd == "/attach"@ || cmd == "/a"@ {
        InputForm::Attach
    } else if cmd == "/search"@ || cmd == "/s"@ {
        if arg.len() == 0 {
            InputForm::Unknown("/search requires a query"@)
        } else {
            InputForm::Search(arg)
        }
    } else if cmd == "/contacts"@ || cmd == "/c"@ {
        InputForm::Contacts
    } else if cmd == "/settings"@ {
        InputForm::Settings
    } else if cmd == "/disappearing"@ || cmd == "/dm"@ {
        if arg.len() == 0 {
            InputForm::Unknown("/disappearing requires a duration (e.g. off, 30s, 5m, 1h, 1d, 1w)"@)
        } else {
            InputForm::SetDisappearing(arg)
        }
    } else if cmd == "/group"@ || cmd == "/g"@ {
        InputForm::Group
    } else if cmd == "/theme"@ || cmd == "/t"@ {
        InputForm::Theme
    } else if cmd == "/poll"@ {
        match parsed_poll(arg) {
            Some((question, options, allow_multiple)) => InputForm::Poll {
                question,
                options,
                allow_multiple,
            },
            None => InputForm::Unknown(
                "Usage: /poll \"question\" \"option1\" \"option2\" [--single]"@,
            ),
        }
    } else if cmd == "/verify"@ || cmd == "/v"@ {
        InputForm::Verify
    } else if cmd == "/profile"@ {
        InputForm::Profile
    } else if cmd == "/about"@ {
        InputForm::About
    } else if cmd == "/help"@ || cmd == "/h"@ {
        InputForm::Help
    } else {
        InputForm::Unknown("Unknown command: "@ + cmd)
    }
}

/// What a line of input asks for. A line that starts with a slash is a
/// command, up to its first space, and an argument; any other is text to send.
pub open spec fn parsed_input(s: Seq<char>) -> InputForm {
    let t = trimmed(s);
    if t.len() == 0 || t[0] != '/' {
        InputForm::SendText(t)
    } else {
        let n = find_char(t, ' ') as int;
        let arg = if n < t.len() { trimmed(t.skip(n + 1)) } else { Seq::empty() };
        parsed_command(t.take(n), arg)
    }
}

fn parse_command(cmd: &str, arg: String) -> (r: InputAction)
    ensures
        r@ == parsed_command(cmd@, arg@),
{
    if same(cmd, "/join") || same(cmd, "/j") {
        if arg.as_str().is_empty() {
            InputAction::Unknown("/join requires a contact or group name".to_string())
        } else {
            InputAction::Join(arg)
        }
    } else if same(cmd, "/part") || same(cmd, "/p") {
        InputAction::Part
    } else if same(cmd, "/quit") || same(cmd, "/q") {
        InputAction::Quit
    } else if same(cmd, "/sidebar") || same(cmd, "/sb") {
        InputAction::ToggleSidebar
    } else if same(cmd, "/bell") || same(cmd, "/notify") {
        if arg.as_str().is_empty() {
            InputAction::ToggleBell(None)
        } else {
            InputAction::ToggleBell(Some(arg))
        }
    } else if same(cmd, "/mute") {
        if arg.as_str().is_empty() {
            InputAction::ToggleMute
        } else {
            InputAction::MuteFor(arg)
        }
    } else if same(cmd, "/block") {
        InputAction::Block
    } else if same(cmd, "/unblock") {
        InputAction::Unblock
    } else if same(cmd, "/attach") || same(cmd, "/a") {
        InputAction::Attach
    } else if same(cmd, "/search") || same(cmd, "/s") {
        if arg.as_str().is_empty() {
            InputAction::Unknown("/search requires a query".to_string())
        } else {
            InputAction::Search(arg)
        }
    } else if same(cmd, "/contacts") || same(cmd, "/c") {
        InputAction::Contacts
    } else if same(cmd, "/settings") {
        InputAction::Settings
    } else if same(cmd, "/disappearing") || same(cmd, "/dm") {
        if arg.as_str().is_empty() {
            InputAction::Unknown(
                "/disappearing requires a duration (e.g. off, 30s, 5m, 1h, 1d, 1w)".to_string(),
            )
        } else {
            InputAction::SetDisappearing(arg)
        }
    } else if same(cmd, "/group") || same(cmd, "/g") {
        InputAction::Group
    } else if same(cmd, "/theme") || same(cmd, "/t") {
        InputAction::Theme
    } else if same(cmd, "/poll") {
        match parse_poll_args(arg.as_str()) {
            Some((question, options, allow_multiple)) => InputAction::Poll {
                question,
                options,
                allow_multiple,
            },
            None => InputAction::Unknown(
                "Usage: /poll \"question\" \"option1\" \"option2\" [--single]".to_string(),
            ),
        }
    } else if same(cmd, "/verify") || same(cmd, "/v") {
        InputAction::Verify
    } else if same(cmd, "/profile") {
        InputAction::Profile
    } else if same(cmd, "/about") {
        InputAction::About
    } else if same(cmd, "/help") || same(cmd, "/h") {
        InputAction::Help
    } else {
        InputAction::Unknown(concat2("Unknown command: ", cmd))
    }
}

/// Parse a line of input into an action
pub fn parse_input(input: &str) -> (r: InputAction)
    ensures
        r@ == parsed_input(input@),
{
    let t = trim(input);
    let chars = to_chars(t.as_str());
    if chars.len() == 0 || chars[0] != '/' {
        return InputAction::SendText(t);
    }
    let n = find_first(&chars, ' ');
    let cmd = from_range(&chars, 0, n);
    assert(cmd@ =~= t@.take(n as int));
    let arg = if n < chars.len() {
        let rest = from_range(&chars, n + 1, chars.len());
        assert(rest@ =~= t@.skip(n + 1));
        trim(rest.as_str())
    } else {
        String::new()
    };
    parse_command(cmd.as_str(), arg)
}

// ---------------------------------------------------------------------------
// Durations
// ---------------------------------------------------------------------------

/// The unit in which a number of seconds is shown: its length in seconds and
/// its letter.
pub open spec fn duration_unit(seconds: int) -> (int, char) {
    if seconds < 60 {
        (1, 's')
    } else if seconds < 3600 {
        (60, 'm')
    } else if seconds < 86400 {
        (3600, 'h')
    } else if seconds < 604800 {
        (86400, 'd')
    } else {
        (604800, 'w')
    }
}

/// A number of seconds as a whole number of its unit.
pub open spec fn compact_duration(seconds: int) -> Seq<char> {
    let (unit, letter) = duration_unit(seconds);
    signed_decimal(seconds / unit).push(letter)
}

/// Format seconds as a compact duration: "30s", "5m", "1h", "1d", "1w".
pub fn format_compact_duration(seconds: i64) -> (r: String)
    ensures
        r@ == compact_duration(seconds as int),
{
    let (n, letter): (i64, char) = if seconds < 60 {
        (seconds, 's')
    } else if seconds < 3600 {
        (seconds / 60, 'm')
    } else if seconds < 86400 {
        (seconds / 3600, 'h')
    } else if seconds < 604800 {
        (seconds / 86400, 'd')
    } else {
        (seconds / 604800, 'w')
    };
    let mut r = format_i64(n);
    r.push(letter);
    r
}

/// The length in seconds of the unit that a letter stands for.
pub open spec fn unit_of_letter(c: char) -> Option<int> {
    if c == 's' {
        Some(1)
    } else if c == 'm' {
        Some(60)
    } else if c == 'h' {
        Some(3600)
    } else if c == 'd' {
        Some(86400)
    } else if c == 'w' {
        Some(604800)
    } else {
        None
    }
}

/// The number of seconds that a text spells: `off` and `0` are none; else a
/// positive number and the letter of its unit, as long as the product is a
/// number of 64 bits.
pub open spec fn parsed_duration(s: Seq<char>) -> Option<i64> {
    let t = folded(trimmed(s));
    if t == "off"@ || t == "0"@ {
        Some(0)
    } else if t.len() == 0 || unit_of_letter(t.last()) is None {
        None
    } else {
        match parsed_int(t.drop_last()) {
            Some(n) => if 0 < n && n * unit_of_letter(t.last())->0 <= i64::MAX {
                Some((n * unit_of_letter(t.last())->0) as i64)
            } else {
                None
            },
            None => None,
        }
    }
}

/// What is said of a text that spells no duration.
pub open spec fn duration_error(s: Seq<char>) -> Seq<char> {
    "Invalid duration: "@ + folded(trimmed(s)) + ". Use off/30s/5m/1h/1d/1w/4w"@
}

/// Parse a human-readable duration string into seconds.
/// Returns Ok(seconds) or Err(message) for invalid input.
pub fn parse_duration_to_seconds(s: &str) -> (r: Result<i64, String>)
    ensures
        match r {
            Ok(n) => parsed_duration(s@) == Some(n),
            Err(e) => parsed_duration(s@) is None && e@ == duration_error(s@),
        },
{
    let t = to_lower(trim(s).as_str());
    if same(t.as_str(), "off") || same(t.as_str(), "0") {
        return Ok(0);
    }
    let chars = to_chars(t.as_str());
    if chars.len() > 0 {
        let last = chars[chars.len() - 1];
        let unit: i64 = if last == 's' {
            1
        } else if last == 'm' {
            60
        } else if last == 'h' {
            3600
        } else if last == 'd' {
            86400
        } else if last == 'w' {
            604800
        } else {
            0
        };
        if unit > 0 {
            let number = from_range(&chars, 0, chars.len() - 1);
            assert(number@ =~= t@.drop_last());
            if let Some(n) = parse_i64(number.as_str()) {
                if n > 0 {
                    if let Some(seconds) = n.checked_mul(unit) {
                        return Ok(seconds);
                    }
                }
            } else {
                proof {
                    if parsed_int(number@) is Some {
                        let n = parsed_int(number@)->0;
                        assert(n > 0 ==> n * unit >= n) by (nonlinear_arith)
                            requires
                                unit >= 1,
                        ;
                    }
                }
            }
        }
    }
    Err(concat3("Invalid duration: ", t.as_str(), ". Use off/30s/5m/1h/1d/1w/4w"))
}

/// A positive duration that was formatted reads back as the same duration,
/// rounded down to the unit in which it was shown.
pub proof fn compact_duration_reads_back(seconds: i64)
    requires
        seconds > 0,
    ensures
        parsed_duration(compact_duration(seconds as int)) == Some(
            (seconds as int - seconds as int % (duration_unit(seconds as int).0)) as i64,
        ),
{
    let (unit, letter) = duration_unit(seconds as int);
    let n = seconds as int / unit;
    let t = compact_duration(seconds as int);
    let digits = decimal(n as nat);
    assert(n > 0);
    decimal_spells(n as nat);
    assert(t == digits.push(letter));
    assert(t.drop_last() =~= digits);
    assert forall|i: int| 0 <= i < t.len() implies !is_white(#[trigger] t[i]) && '\0' <= t[i]
        <= '\u{7f}' && !('A' <= t[i] <= 'Z') by {
        if i < digits.len() {
            assert(t[i] == digits[i]);
            assert(digit_value(digits[i]) is Some);
            digit_is_plain(digits[i]);
        }
    }
    assert(trimmed(t) == t) by {
        assert(!is_white(t[0]));
        assert(!is_white(t.last()));
    }
    folded_fixed(t);
    reveal_strlit("off");
    reveal_strlit("0");
    assert(t.last() == letter);
    assert("off"@.last() == 'f');
    assert("0"@.last() == '0');
    crate::text::signed_decimal_spells(n);
    assert(n * unit == seconds as int - seconds as int % unit) by (nonlinear_arith)
        requires
            unit > 0,
            n == seconds as int / unit,
    ;
    assert(0 <= seconds as int % unit < unit) by (nonlinear_arith)
        requires
            unit > 0,
    ;
}

proof fn digit_is_plain(c: char)
    requires
        digit_value(c) is Some,
    ensures
        !is_white(c),
        '\0' <= c <= '\u{7f}',
        !('A' <= c <= 'Z'),
{
}

} // verus!
