//! What is promised of how the input is read, and of what is exported.
use crate::app::{AppView, EffectView};
use crate::conversation_store::{ConversationView, DisplayMessageView};
use crate::export::{export_asked, export_line, export_lines, exported, minute, RULE};
use crate::input::{parsed_command, parsed_duration, parsed_input, unit_of_letter, InputForm};
use crate::strmap::look;
use crate::text::{
    contains_text, decimal, find_char_unique, folded, is_white, occurs_at, parsed_int, trimmed,
};
use vstd::prelude::*;

verus! {

/// A text has no white space at its ends.
pub open spec fn is_trim(s: Seq<char>) -> bool {
    s.len() > 0 && !is_white(s[0]) && !is_white(s.last())
}

/// What is not a command is sent as it is, without the white space around it.
pub proof fn texts_are_sent(s: Seq<char>)
    requires
        trimmed(s).len() > 0 ==> trimmed(s)[0] != '/',
    ensures
        parsed_input(s) == InputForm::SendText(trimmed(s)),
{
}

proof fn command_is_split(cmd: Seq<char>, arg: Seq<char>)
    requires
        is_trim(cmd) && cmd[0] == '/' && !cmd.contains(' '),
        is_trim(arg),
    ensures
        parsed_input(cmd + seq![' '] + arg) == parsed_command(cmd, arg),
        parsed_input(cmd) == parsed_command(cmd, Seq::empty()),
{
    let t = cmd + seq![' '] + arg;
    let n = cmd.len() as int;
    assert(t[0] == cmd[0] && t.last() == arg.last());
    assert(trimmed(t) == t);
    assert(trimmed(cmd) == cmd);
    assert(trimmed(arg) == arg);
    assert forall|i: int| 0 <= i < n implies t[i] != ' ' && cmd[i] != ' ' by {
        assert(t[i] == cmd[i]);
        assert(cmd.contains(cmd[i]));
    }
    find_char_unique(t, ' ', n);
    find_char_unique(cmd, ' ', n);
    assert(t.take(n) =~= cmd);
    assert(t.skip(n + 1) =~= arg);
    assert(cmd.take(n) =~= cmd);
}

proof fn names_tell_commands()
    ensures
        "/join"@.len() == 5 && "/join"@[1] == 'j' && "/j"@.len() == 2 && "/j"@[1] == 'j',
        "/part"@.len() == 5 && "/part"@[1] == 'p' && "/part"@[2] == 'a',
        "/p"@.len() == 2 && "/p"@[1] == 'p' && "/q"@.len() == 2 && "/q"@[1] == 'q',
        "/quit"@.len() == 5 && "/quit"@[1] == 'q',
        "/sidebar"@.len() == 8 && "/sidebar"@[1] == 's' && "/sb"@.len() == 3 && "/sb"@[1] == 's',
        "/bell"@.len() == 5 && "/bell"@[1] == 'b' && "/notify"@.len() == 7 && "/notify"@[1] == 'n',
        "/mute"@.len() == 5 && "/mute"@[1] == 'm' && "/block"@.len() == 6 && "/block"@[1] == 'b',
        "/unblock"@.len() == 8 && "/unblock"@[1] == 'u' && "/attach"@.len() == 7,
        "/attach"@[1] == 'a' && "/a"@.len() == 2 && "/a"@[1] == 'a' && "/search"@.len() == 7,
        "/search"@[1] == 's' && "/s"@.len() == 2 && "/s"@[1] == 's' && "/contacts"@.len() == 9,
        "/contacts"@[1] == 'c' && "/c"@.len() == 2 && "/c"@[1] == 'c' && "/settings"@.len() == 9,
        "/settings"@[1] == 's' && "/disappearing"@.len() == 13 && "/dm"@.len() == 3,
        "/dm"@[1] == 'd' && "/group"@.len() == 6 && "/group"@[1] == 'g' && "/g"@.len() == 2,
        "/g"@[1] == 'g' && "/theme"@.len() == 6 && "/theme"@[1] == 't' && "/t"@.len() == 2,
        "/t"@[1] == 't' && "/poll"@.len() == 5 && "/poll"@[1] == 'p' && "/poll"@[2] == 'o',
        "/verify"@.len() == 7 && "/verify"@[1] == 'v' && "/v"@.len() == 2 && "/v"@[1] == 'v',
        "/profile"@.len() == 8 && "/profile"@[1] == 'p' && "/about"@.len() == 6,
        "/about"@[1] == 'a' && "/help"@.len() == 5 && "/help"@[1] == 'h' && "/h"@.len() == 2,
        "/h"@[1] == 'h',
{
    reveal_strlit("/join");
    reveal_strlit("/j");
    reveal_strlit("/part");
    reveal_strlit("/p");
    reveal_strlit("/quit");
    reveal_strlit("/q");
    reveal_strlit("/sidebar");
    reveal_strlit("/sb");
    reveal_strlit("/bell");
    reveal_strlit("/notify");
    reveal_strlit("/mute");
    reveal_strlit("/block");
    reveal_strlit("/unblock");
    reveal_strlit("/attach");
    reveal_strlit("/a");
    reveal_strlit("/search");
    reveal_strlit("/s");
    reveal_strlit("/contacts");
    reveal_strlit("/c");
    reveal_strlit("/settings");
    reveal_strlit("/disappearing");
    reveal_strlit("/dm");
    reveal_strlit("/group");
    reveal_strlit("/g");
    reveal_strlit("/theme");
    reveal_strlit("/t");
    reveal_strlit("/poll");
    reveal_strlit("/verify");
    reveal_strlit("/v");
    reveal_strlit("/profile");
    reveal_strlit("/about");
    reveal_strlit("/help");
    reveal_strlit("/h");
}

/// A command with what follows it is understood as that command with that argument,
/// under its name and its short name.
pub proof fn commands_take_arguments(cmd: Seq<char>, arg: Seq<char>)
    requires
        is_trim(cmd) && cmd[0] == '/' && !cmd.contains(' '),
        is_trim(arg),
    ensures
        ({
            let r = parsed_input(cmd + seq![' '] + arg);
            &&& cmd == "/join"@ || cmd == "/j"@ ==> r == InputForm::Join(arg)
            &&& cmd == "/search"@ || cmd == "/s"@ ==> r == InputForm::Search(arg)
            &&& cmd == "/mute"@ ==> r == InputForm::MuteFor(arg)
            &&& cmd == "/bell"@ || cmd == "/notify"@ ==> r == InputForm::ToggleBell(Some(arg))
            &&& cmd == "/disappearing"@ || cmd == "/dm"@ ==> r == InputForm::SetDisappearing(arg)
        }),
{
    command_is_split(cmd, arg);
    names_tell_commands();
}

/// A command alone is understood as that command, under its name and its short name;
/// one that needs more is not understood.
pub proof fn commands_stand_alone(cmd: Seq<char>)
    requires
        is_trim(cmd) && cmd[0] == '/' && !cmd.contains(' '),
    ensures
        ({
            let r = parsed_input(cmd);
            &&& cmd == "/part"@ || cmd == "/p"@ ==> r == InputForm::Part
            &&& cmd == "/quit"@ || cmd == "/q"@ ==> r == InputForm::Quit
            &&& cmd == "/sidebar"@ || cmd == "/sb"@ ==> r == InputForm::ToggleSidebar
            &&& cmd == "/bell"@ || cmd == "/notify"@ ==> r == InputForm::ToggleBell(None)
            &&& cmd == "/mute"@ ==> r == InputForm::ToggleMute
            &&& cmd == "/block"@ ==> r == InputForm::Block
            &&& cmd == "/unblock"@ ==> r == InputForm::Unblock
            &&& cmd == "/attach"@ || cmd == "/a"@ ==> r == InputForm::Attach
            &&& cmd == "/contacts"@ || cmd == "/c"@ ==> r == InputForm::Contacts
            &&& cmd == "/settings"@ ==> r == InputForm::Settings
            &&& cmd == "/group"@ || cmd == "/g"@ ==> r == InputForm::Group
            &&& cmd == "/theme"@ || cmd == "/t"@ ==> r == InputForm::Theme
            &&& cmd == "/verify"@ || cmd == "/v"@ ==> r == InputForm::Verify
            &&& cmd == "/profile"@ ==> r == InputForm::Profile
            &&& cmd == "/about"@ ==> r == InputForm::About
            &&& cmd == "/help"@ || cmd == "/h"@ ==> r == InputForm::Help
            &&& cmd == "/join"@ || cmd == "/j"@ || cmd == "/search"@ || cmd == "/s"@ || cmd
                == "/disappearing"@ || cmd == "/dm"@ ==> r is Unknown
        }),
{
    command_is_split(cmd, cmd);
    names_tell_commands();
}

/// A number with a letter for its unit is understood as that many seconds, minutes,
/// hours, days or weeks; none of them is no duration, and off is none at all.
pub proof fn durations_are_understood(s: Seq<char>, digits: Seq<char>, n: int, letter: char)
    requires
        folded(trimmed(s)) == digits.push(letter),
        parsed_int(digits) is Some && parsed_int(digits)->0 == n,
        0 < n <= 1000000,
    ensures
        ({
            let r = parsed_duration(s);
            &&& letter == 's' ==> r == Some(n as i64)
            &&& letter == 'm' ==> r == Some((60 * n) as i64)
            &&& letter == 'h' ==> r == Some((60 * 60 * n) as i64)
            &&& letter == 'd' ==> r == Some((24 * 60 * 60 * n) as i64)
            &&& letter == 'w' ==> r == Some((7 * 24 * 60 * 60 * n) as i64)
        }),
        trimmed(s) == "off"@ && folded("off"@) == "off"@ ==> parsed_duration(s) == Some(0i64),
{
    reveal_strlit("off");
    reveal_strlit("0");
    let t = folded(trimmed(s));
    assert(t.last() == letter);
    assert(t.drop_last() =~= digits);
    assert("off"@[2] == 'f');
    assert("0"@[0] == '0');
    if t == "off"@ {
        assert(t[2] == letter);
    }
    if t == "0"@ {
        assert(t[0] == letter);
    }
    if unit_of_letter(letter) is Some {
        let u = unit_of_letter(letter)->0;
        assert(n * u == u * n) by (nonlinear_arith);
        if letter == 's' {
            assert(u * n == 1 * n);
        } else if letter == 'm' {
            assert(u * n == 60 * n);
        } else if letter == 'h' {
            assert(u * n == 3600 * n);
        } else if letter == 'd' {
            assert(u * n == 86400 * n);
        } else {
            assert(u * n == 604800 * n);
        }
    }
}

// ---------------------------------------------------------------------------
// Exporting
// ---------------------------------------------------------------------------

/// Exporting the last messages of a conversation exports as many as are asked for, or
/// all where there are not more; without messages nothing is exported.
pub proof fn the_last_messages_are_exported(a: AppView, id: Seq<char>, limit: usize)
    requires
        a.active_conversation == Some(id),
        look(a.store.conversations, id) is Some,
        0 < look(a.store.conversations, id)->0.messages.len() <= usize::MAX,
        limit > 0,
    ensures
        ({
            let n = look(a.store.conversations, id)->0.messages.len();
            let some = export_asked(a, Some(limit)).effects;
            let all = export_asked(a, None).effects;
            &&& limit < n ==> some == a.effects.push(
                EffectView::Export { conversation: id, start: (n - limit) as usize },
            )
            &&& limit >= n ==> some == all
            &&& all == a.effects.push(EffectView::Export { conversation: id, start: 0 })
        }),
{
    reveal(export_asked);
}

proof fn stands_in(s: Seq<char>, front: Seq<char>, mid: Seq<char>, back: Seq<char>)
    requires
        s == front + mid + back,
    ensures
        contains_text(s, mid),
{
    assert(s.subrange(front.len() as int, front.len() as int + mid.len()) =~= mid);
    assert(occurs_at(s, mid, front.len() as int));
}

proof fn stands_deeper(s: Seq<char>, front: Seq<char>, mid: Seq<char>, back: Seq<char>, p: Seq<char>)
    requires
        s == front + mid + back,
        contains_text(mid, p),
    ensures
        contains_text(s, p),
{
    let i = choose|i: int| occurs_at(mid, p, i);
    let k = front.len() + i;
    assert(s.subrange(k, k + p.len()) =~= mid.subrange(i, i + p.len()));
    assert(occurs_at(s, p, k));
}

proof fn line_stands(s: Seq<DisplayMessageView>, offsets: Seq<i32>, n: int, j: int)
    requires
        0 <= j < n <= s.len(),
    ensures
        contains_text(
            export_lines(s, offsets, n),
            export_line(
                s[j],
                minute(s[j].timestamp, if j < offsets.len() { offsets[j] } else { 0 }),
            ),
        ),
    decreases n,
{
    let before = export_lines(s, offsets, n - 1);
    let last = export_line(
        s[n - 1],
        minute(s[n - 1].timestamp, if n - 1 < offsets.len() { offsets[n - 1] } else { 0 }),
    );
    let all = export_lines(s, offsets, n);
    if j == n - 1 {
        assert(all =~= before + last + Seq::<char>::empty());
        stands_in(all, before, last, Seq::empty());
    } else {
        line_stands(s, offsets, n - 1, j);
        let line = export_line(
            s[j],
            minute(s[j].timestamp, if j < offsets.len() { offsets[j] } else { 0 }),
        );
        assert(all =~= Seq::<char>::empty() + before + last);
        stands_deeper(all, Seq::empty(), before, last, line);
    }
}

proof fn system_line_holds(m: DisplayMessageView, t: Seq<char>)
    requires
        m.is_system,
    ensures
        contains_text(export_line(m, t), m.body),
{
    let front = "["@ + t + "] * "@;
    assert(export_line(m, t) =~= front + m.body + "\n"@);
    stands_in(export_line(m, t), front, m.body, "\n"@);
}

proof fn line_parts(m: DisplayMessageView, t: Seq<char>) -> (parts: (Seq<char>, Seq<char>))
    requires
        !m.is_system,
    ensures
        export_line(m, t) == "["@ + t + "] <"@ + m.sender + "> "@ + parts.0 + m.body + parts.1,
{
    let mark = if m.is_edited {
        "(edited) "@
    } else {
        ""@
    };
    let line = "["@ + t + "] <"@ + m.sender + "> "@ + mark + m.body + "\n"@;
    match m.quote {
        Some(q) => {
            let quote = "  > <"@ + q.author + "> "@ + q.body + "\n"@;
            assert(line + quote =~= "["@ + t + "] <"@ + m.sender + "> "@ + mark + m.body + ("\n"@
                + quote));
            (mark, "\n"@ + quote)
        },
        None => (mark, "\n"@),
    }
}

proof fn line_holds(m: DisplayMessageView, t: Seq<char>)
    requires
        !m.is_system,
    ensures
        contains_text(export_line(m, t), m.body),
        contains_text(export_line(m, t), "<"@ + m.sender + ">"@),
{
    let (mark, back) = line_parts(m, t);
    let line = export_line(m, t);
    let front = "["@ + t + "] <"@ + m.sender + "> "@ + mark;
    assert(line =~= front + m.body + back);
    stands_in(line, front, m.body, back);
    who_stands("["@ + t, m.sender, mark + m.body + back);
    assert(line =~= "["@ + t + "] <"@ + m.sender + "> "@ + (mark + m.body + back));
}

proof fn who_stands(front: Seq<char>, sender: Seq<char>, back: Seq<char>)
    ensures
        contains_text(front + "] <"@ + sender + "> "@ + back, "<"@ + sender + ">"@),
{
    reveal_strlit("] <");
    reveal_strlit("> ");
    reveal_strlit("<");
    reveal_strlit(">");
    let who = "<"@ + sender + ">"@;
    let s = front + "] <"@ + sender + "> "@ + back;
    assert(s =~= (front + seq![']', ' ']) + who + (seq![' '] + back));
    stands_in(s, front + seq![']', ' '], who, seq![' '] + back);
}

proof fn holds_through(all: Seq<char>, head: Seq<char>, lines: Seq<char>, line: Seq<char>, p: Seq<char>)
    requires
        all == head + lines,
        contains_text(lines, line),
        contains_text(line, p),
    ensures
        contains_text(all, p),
{
    let none = Seq::<char>::empty();
    let i = choose|i: int| occurs_at(lines, line, i);
    assert(lines =~= lines.take(i) + line + lines.skip(i + line.len()));
    stands_deeper(lines, lines.take(i), line, lines.skip(i + line.len()), p);
    assert(all =~= head + lines + none);
    stands_deeper(all, head, lines, none, p);
}

/// What is exported holds each message from the first that is exported on: what it says,
/// and who wrote it where someone did.
pub proof fn exports_hold_the_messages(
    c: ConversationView,
    start: int,
    now: Seq<char>,
    offsets: Seq<i32>,
    j: int,
)
    requires
        0 <= start <= j < c.messages.len(),
    ensures
        contains_text(exported(c, start, now, offsets), c.messages[j].body),
        !c.messages[j].is_system ==> contains_text(
            exported(c, start, now, offsets),
            "<"@ + c.messages[j].sender + ">"@,
        ),
{
    let s = c.messages.skip(start);
    let k = j - start;
    let m = s[k];
    let t = minute(m.timestamp, if k < offsets.len() { offsets[k] } else { 0 });
    let line = export_line(m, t);
    let lines = export_lines(s, offsets, s.len() as int);
    let all = exported(c, start, now, offsets);
    let head = "Chat export: "@ + c.name + "\n"@ + "Exported: "@ + now + "\n"@ + "Messages: "@
        + decimal(s.len()) + "\n"@ + RULE@ + "\n"@;
    line_stands(s, offsets, s.len() as int, k);
    if m.is_system {
        system_line_holds(m, t);
    } else {
        line_holds(m, t);
        holds_through(all, head, lines, line, "<"@ + m.sender + ">"@);
    }
    holds_through(all, head, lines, line, m.body);
}

} // verus!
