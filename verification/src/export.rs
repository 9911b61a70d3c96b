//! Messages as text: for the clipboard, and for a file.
use crate::app::{App, AppView, Effect, EffectView};
use crate::conversation_store::{
    clock_at, clock_text, Conversation, ConversationView, DisplayMessage, DisplayMessageView,
};
use crate::text::{concat2, concat3, decimal, format_usize, push_text, to_chars};
use vstd::prelude::*;

verus! {

// ---------------------------------------------------------------------------
// Dates
// ---------------------------------------------------------------------------

/// The pattern of a day.
pub const DAY_PATTERN: &'static str = "%Y-%m-%d";

/// The pattern of a minute of a day.
pub const MINUTE_PATTERN: &'static str = "%Y-%m-%d %H:%M";

/// What `chrono` writes for a time in milliseconds since the epoch, where local
/// time is `offset` seconds ahead of UTC, by a pattern. None for a time or an
/// offset that it cannot represent.
pub uninterp spec fn local_time(ms: i64, offset: i32, pattern: Seq<char>) -> Option<Seq<char>>;

/// Calls `chrono::DateTime::format` on the time that
/// `chrono::DateTime::from_timestamp_millis` makes of `ms`, taken to the zone that
/// `chrono::FixedOffset::east_opt` makes of `offset`. That the text is
/// [`local_time`] of the three is claimed; what it looks like is not.
#[verifier::external_body]
fn format_local(ms: i64, offset: i32, pattern: &str) -> (r: Option<String>)
    requires
        pattern@ == DAY_PATTERN@ || pattern@ == MINUTE_PATTERN@,
    ensures
        r.deep_view() == local_time(ms, offset, pattern@),
{
    let time = chrono::DateTime::from_timestamp_millis(ms)?;
    let zone = chrono::FixedOffset::east_opt(offset)?;
    Some(time.with_timezone(&zone).format(pattern).to_string())
}

/// The minute of a time; nothing for one that cannot be represented.
pub open spec fn minute(ms: i64, offset: i32) -> Seq<char> {
    match local_time(ms, offset, MINUTE_PATTERN@) {
        Some(t) => t,
        None => Seq::empty(),
    }
}

/// The day of a time; nothing for one that cannot be represented.
pub open spec fn day(ms: i64, offset: i32) -> Seq<char> {
    match local_time(ms, offset, DAY_PATTERN@) {
        Some(t) => t,
        None => Seq::empty(),
    }
}

/// The minute of a time.
pub fn minute_text(ms: i64, offset: i32) -> (r: String)
    ensures
        r@ == minute(ms, offset),
{
    match format_local(ms, offset, MINUTE_PATTERN) {
        Some(t) => t,
        None => {
            let empty = String::new();
            assert(empty@ =~= Seq::<char>::empty());
            empty
        },
    }
}

/// The day of a time.
pub fn day_text(ms: i64, offset: i32) -> (r: String)
    ensures
        r@ == day(ms, offset),
{
    match format_local(ms, offset, DAY_PATTERN) {
        Some(t) => t,
        None => {
            let empty = String::new();
            assert(empty@ =~= Seq::<char>::empty());
            empty
        },
    }
}

// ---------------------------------------------------------------------------
// A line for the clipboard
// ---------------------------------------------------------------------------

/// A message with its time and its sender.
pub open spec fn message_line(clock: Seq<char>, sender: Seq<char>, body: Seq<char>) -> Seq<char> {
    "["@ + clock + "] <"@ + sender + "> "@ + body
}

/// A message with the time of day at which it was sent, where local time is
/// `offset` seconds ahead of UTC, and its sender.
pub fn line_text(timestamp_ms: i64, offset: i32, sender: &str, body: &str) -> (r: String)
    ensures
        r@ == message_line(clock_text(timestamp_ms as int, offset as int), sender@, body@),
{
    let clock = clock_at(timestamp_ms, offset);
    let a = concat3("[", clock.as_str(), "] <");
    let b = concat3(a.as_str(), sender, "> ");
    concat2(b.as_str(), body)
}

// ---------------------------------------------------------------------------
// A file
// ---------------------------------------------------------------------------

/// Whether `char::is_alphanumeric` holds of a character.
pub uninterp spec fn is_alnum(c: char) -> bool;

/// Calls `char::is_alphanumeric`. That the result is [`is_alnum`] of the character
/// is claimed; what holds of ASCII characters, too.
#[verifier::external_body]
fn alphanumeric(c: char) -> (r: bool)
    ensures
        r == is_alnum(c),
        c <= '\u{7f}' ==> r == ('0' <= c <= '9' || 'A' <= c <= 'Z' || 'a' <= c <= 'z'),
{
    c.is_alphanumeric()
}

/// A character that may stand in the name of a file; others become `_`.
pub open spec fn safe_char(c: char) -> char {
    if is_alnum(c) || c == '-' || c == '_' {
        c
    } else {
        '_'
    }
}

/// A name as a part of the name of a file.
pub open spec fn safe_name(name: Seq<char>) -> Seq<char> {
    name.map_values(|c: char| safe_char(c))
}

/// The name of the file that a conversation is exported to.
pub open spec fn export_name(name: Seq<char>, day: Seq<char>) -> Seq<char> {
    "siggy-export-"@ + safe_name(name) + "-"@ + day + ".txt"@
}

/// The line that sets the heading of an export apart.
pub const RULE: &'static str = "------------------------------------------------------------";

/// A message in an export.
pub open spec fn export_line(m: DisplayMessageView, time: Seq<char>) -> Seq<char> {
    if m.is_system {
        "["@ + time + "] * "@ + m.body + "\n"@
    } else {
        let line = "["@ + time + "] <"@ + m.sender + "> "@ + (if m.is_edited {
            "(edited) "@
        } else {
            ""@
        }) + m.body + "\n"@;
        match m.quote {
            Some(q) => line + ("  > <"@ + q.author + "> "@ + q.body + "\n"@),
            None => line,
        }
    }
}

/// The first `n` of messages in an export. Local time is `offset` seconds ahead
/// of UTC for each.
pub open spec fn export_lines(
    s: Seq<DisplayMessageView>,
    offsets: Seq<i32>,
    n: int,
) -> Seq<char>
    decreases n,
{
    if n <= 0 {
        Seq::empty()
    } else {
        export_lines(s, offsets, n - 1) + export_line(
            s[n - 1],
            minute(s[n - 1].timestamp, if n - 1 < offsets.len() { offsets[n - 1] } else { 0 }),
        )
    }
}

/// The messages of a conversation, from one on, as the text of a file.
pub open spec fn exported(
    c: ConversationView,
    start: int,
    now: Seq<char>,
    offsets: Seq<i32>,
) -> Seq<char> {
    let s = c.messages.skip(start);
    "Chat export: "@ + c.name + "\n"@ + "Exported: "@ + now + "\n"@ + "Messages: "@ + decimal(s.len())
        + "\n"@ + RULE@ + "\n"@ + export_lines(s, offsets, s.len() as int)
}

/// A name as a part of the name of a file.
pub fn make_safe(name: &str) -> (r: String)
    ensures
        r@ == safe_name(name@),
{
    let chars = to_chars(name);
    let mut out = String::new();
    let mut i: usize = 0;
    assert(out@ =~= safe_name(name@.take(0)));
    while i < chars.len()
        invariant
            i <= chars@.len(),
            chars@ == name@,
            out@ == safe_name(name@.take(i as int)),
        decreases chars@.len() - i,
    {
        let c = chars[i];
        let ghost before = out@;
        if alphanumeric(c) || c == '-' || c == '_' {
            out.push(c);
        } else {
            out.push('_');
        }
        assert(out@ =~= safe_name(name@.take(i + 1)));
        i += 1;
    }
    assert(name@.take(name@.len() as int) =~= name@);
    out
}

/// The name of the file that a conversation is exported to.
pub fn export_file_name(name: &str, day: &str) -> (r: String)
    ensures
        r@ == export_name(name@, day@),
{
    let safe = make_safe(name);
    let a = concat3("siggy-export-", safe.as_str(), "-");
    concat3(a.as_str(), day, ".txt")
}

fn line_of(m: &DisplayMessage, time: &str) -> (r: String)
    ensures
        r@ == export_line(m.deep_view(), time@),
{
    if m.is_system {
        let a = concat3("[", time, "] * ");
        concat3(a.as_str(), m.body.as_str(), "\n")
    } else {
        let a = concat3("[", time, "] <");
        let b = concat3(a.as_str(), m.sender.as_str(), "> ");
        let prefix = if m.is_edited {
            "(edited) "
        } else {
            ""
        };
        let c = concat3(b.as_str(), prefix, m.body.as_str());
        let line = concat2(c.as_str(), "\n");
        match &m.quote {
            Some(q) => {
                let d = concat3("  > <", q.author.as_str(), "> ");
                let e = concat3(d.as_str(), q.body.as_str(), "\n");
                concat2(line.as_str(), e.as_str())
            },
            None => line,
        }
    }
}

/// The messages of a conversation, from one on, as the text of a file. It was
/// exported at `now`; local time is ahead of UTC by one of `offsets` for each
/// message.
pub fn export_text(c: &Conversation, start: usize, now: &str, offsets: &Vec<i32>) -> (r: String)
    requires
        start <= c.messages@.len(),
    ensures
        r@ == exported(c.deep_view(), start as int, now@, offsets@),
{
    let ghost s = c.messages.deep_view().skip(start as int);
    let count = c.messages.len() - start;
    let n = format_usize(count);
    let a = concat3("Chat export: ", c.name.as_str(), "\n");
    let b = concat3(a.as_str(), "Exported: ", now);
    let d = concat3(b.as_str(), "\n", "Messages: ");
    let e = concat3(d.as_str(), n.as_str(), "\n");
    let mut out = concat3(e.as_str(), RULE, "\n");
    let ghost head = out@;
    let mut i: usize = 0;
    assert(out@ =~= head + export_lines(s, offsets@, 0));
    while i < count
        invariant
            i <= count,
            start + count == c.messages.len(),
            s == c.messages.deep_view().skip(start as int),
            out@ == head + export_lines(s, offsets@, i as int),
        decreases count - i,
    {
        let m = &c.messages[start + i];
        assert(s[i as int] == m.deep_view());
        let offset = if i < offsets.len() {
            offsets[i]
        } else {
            0
        };
        let time = minute_text(m.timestamp, offset);
        let line = line_of(m, time.as_str());
        let ghost before = export_lines(s, offsets@, i as int);
        push_text(&mut out, line.as_str());
        assert(out@ =~= head + (before + line@));
        i += 1;
    }
    assert(head =~= "Chat export: "@ + c.name@ + "\n"@ + "Exported: "@ + now@ + "\n"@ + "Messages: "@
        + decimal(s.len()) + "\n"@ + RULE@ + "\n"@);
    out
}

// ---------------------------------------------------------------------------
// The state
// ---------------------------------------------------------------------------

/// The first of the last `limit` of `len`.
pub open spec fn export_start(len: nat, limit: Option<usize>) -> usize {
    match limit {
        Some(n) => if n < len {
            (len - n) as usize
        } else {
            0
        },
        None => 0,
    }
}

/// The state with the export of the active conversation asked for: of its last
/// messages, or of all.
#[verifier::opaque]
pub open spec fn export_asked(a: AppView, limit: Option<usize>) -> AppView {
    match a.active_conversation {
        Some(id) => match a.active() {
            Some(c) => {
                let start = export_start(c.messages.len(), limit);
                if start >= c.messages.len() {
                    a.say("No messages to export"@)
                } else {
                    a.ask(EffectView::Export { conversation: id, start })
                }
            },
            None => a,
        },
        None => a.say("No active conversation to export"@),
    }
}

impl App {
    fn active_len(&self) -> (r: Option<usize>)
        ensures
            match r {
                Some(n) => self.state().active() is Some && self.state().active()->0.messages.len()
                    == n,
                None => self.state().active() is None,
            },
    {
        reveal(App::state);
        match &self.active_conversation {
            Some(id) => match self.store.conversations.get(id.as_str()) {
                Some(c) => Some(c.messages.len()),
                None => None,
            },
            None => None,
        }
    }

    /// Asks for the active conversation to be exported: its last messages, or
    /// all.
    pub fn export_chat_history(&mut self, limit: Option<usize>)
        ensures
            final(self).state() == export_asked(old(self).state(), limit),
    {
        reveal(export_asked);
        match self.active_id() {
            Some(id) => {
                if let Some(len) = self.active_len() {
                    let start = match limit {
                        Some(n) => len.saturating_sub(n),
                        None => 0,
                    };
                    if start >= len {
                        self.set_status("No messages to export");
                    } else {
                        self.request(Effect::Export { conversation: id, start });
                    }
                }
            },
            None => {
                self.set_status("No active conversation to export");
            },
        }
    }

    /// Tells that messages were exported to a file.
    pub fn export_done(&mut self, count: usize, path: &str)
        ensures
            final(self).state() == old(self).state().say(
                "Exported "@ + decimal(count as nat) + " messages to "@ + path@,
            ),
    {
        let n = format_usize(count);
        let a = concat3("Exported ", n.as_str(), " messages to ");
        let text = concat2(a.as_str(), path);
        self.set_status(text.as_str());
    }

    /// Tells that an export failed.
    pub fn export_failed(&mut self, error: &str)
        ensures
            final(self).state() == old(self).state().say("Export failed: "@ + error@),
    {
        let text = concat2("Export failed: ", error);
        self.set_status(text.as_str());
    }
}

} // verus!
